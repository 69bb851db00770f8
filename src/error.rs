use vstd::prelude::*;

verus! {

/// The parts of an envelope that a failure can name.
#[derive(Clone, Copy, Debug, PartialEq, Eq, Structural)]
pub enum Field {
    Function,
    Users,
    Messages,
    Conversations,
    Email,
    Password,
    PublicKey,
    Id,
    Name,
    Data,
    MediaType,
    Timestamp,
    Signature,
}

/// Why an envelope was refused.
#[derive(Clone, Copy, Debug, PartialEq, Eq, Structural)]
pub enum Problem {
    /// The text is not JSON.
    NotJson,
    /// The envelope, or one of its entities, is not a JSON object.
    NotAnObject,
    /// `function` does not hold two whitespace-separated words.
    BadFunction,
    UnknownOperation,
    UnknownTarget,
    /// The field is there but has the wrong JSON type.
    WrongType(Field),
    /// A field that the operation needs is absent.
    Missing(Field),
    /// A list that the operation reads the first element of is empty.
    Empty(Field),
    /// The field's bytes are not UTF-8.
    NotUtf8(Field),
    /// The field is longer than the password hash takes.
    TooLong(Field),
    /// No handler exists for this operation on this target.
    Unsupported,
}

/// The failures of the core.
#[derive(Clone, Copy, Debug, PartialEq, Eq, Structural)]
pub enum ApiError {
    /// A client-side fault in the envelope; never retried.
    InvalidRequest(Problem),
    /// The session is not authenticated, or the password did not match.
    Unauthorized,
    /// Storage held no row where exactly one was expected.
    NotFound,
    /// Storage failed.
    Storage,
    /// No salt could be drawn for a new credential.
    Integrity,
}

impl ApiError {
    /// True for the errors that are the client's fault.
    pub fn is_invalid_request(&self) -> (r: bool)
        ensures
            r == (*self is InvalidRequest),
    {
        match self {
            ApiError::InvalidRequest(_) => true,
            _ => false,
        }
    }
}

} // verus!
