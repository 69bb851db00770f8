//! The entities that an envelope carries, and their decoding from JSON.
//! Every field is optional on the wire; a field that is present with the
//! wrong JSON type is refused.
use vstd::prelude::*;
use vstd::string::StrSliceExecFns;
use vstd::utf8::encode_utf8;
use crate::error::{ApiError, Field, Problem};
use crate::json::{field_of, pick_fields, Json};

verus! {

#[derive(Clone, Debug, PartialEq, Eq)]
pub struct User {
    pub email: Option<String>,
    pub password: Option<String>,
    pub public_key: Option<Vec<u8>>,
}

#[derive(Clone, Debug, PartialEq, Eq)]
pub struct Conversation {
    pub id: Option<i64>,
    pub name: Option<Vec<u8>>,
}

#[derive(Clone, Debug, PartialEq, Eq)]
pub struct Message {
    pub data: Option<Vec<u8>>,
    pub media_type: Option<String>,
    pub timestamp: Option<i64>,
    pub signature: Option<Vec<u8>>,
}

/// A user as plain values.
pub struct UserView {
    pub email: Option<Seq<char>>,
    pub password: Option<Seq<char>>,
    pub public_key: Option<Seq<u8>>,
}

/// A conversation as plain values.
pub struct ConversationView {
    pub id: Option<i64>,
    pub name: Option<Seq<u8>>,
}

/// A message as plain values.
pub struct MessageView {
    pub data: Option<Seq<u8>>,
    pub media_type: Option<Seq<char>>,
    pub timestamp: Option<i64>,
    pub signature: Option<Seq<u8>>,
}

pub open spec fn chars_view(s: Option<String>) -> Option<Seq<char>> {
    match s {
        Some(v) => Some(v@),
        None => None,
    }
}

pub open spec fn bytes_view(b: Option<Vec<u8>>) -> Option<Seq<u8>> {
    match b {
        Some(v) => Some(v@),
        None => None,
    }
}

impl View for User {
    type V = UserView;

    open spec fn view(&self) -> UserView {
        UserView {
            email: chars_view(self.email),
            password: chars_view(self.password),
            public_key: bytes_view(self.public_key),
        }
    }
}

impl View for Conversation {
    type V = ConversationView;

    open spec fn view(&self) -> ConversationView {
        ConversationView { id: self.id, name: bytes_view(self.name) }
    }
}

impl View for Message {
    type V = MessageView;

    open spec fn view(&self) -> MessageView {
        MessageView {
            data: bytes_view(self.data),
            media_type: chars_view(self.media_type),
            timestamp: self.timestamp,
            signature: bytes_view(self.signature),
        }
    }
}

pub open spec fn wrong_type(field: Field) -> ApiError {
    ApiError::InvalidRequest(Problem::WrongType(field))
}

/// A text field: absent or `null` is `None`, a string is its characters.
pub open spec fn text_of(j: Option<Json>, field: Field) -> Result<Option<Seq<char>>, ApiError> {
    match j {
        None => Ok(None),
        Some(Json::Null) => Ok(None),
        Some(Json::Text(s)) => Ok(Some(s@)),
        Some(_) => Err(wrong_type(field)),
    }
}

/// A byte field, written on the wire as a string: its UTF-8 bytes.
pub open spec fn bytes_of(j: Option<Json>, field: Field) -> Result<Option<Seq<u8>>, ApiError> {
    match j {
        None => Ok(None),
        Some(Json::Null) => Ok(None),
        Some(Json::Text(s)) => Ok(Some(encode_utf8(s@))),
        Some(_) => Err(wrong_type(field)),
    }
}

/// An integer field: a number that is no `i64` is refused.
pub open spec fn integer_of(j: Option<Json>, field: Field) -> Result<Option<i64>, ApiError> {
    match j {
        None => Ok(None),
        Some(Json::Null) => Ok(None),
        Some(Json::Number(Some(i))) => Ok(Some(i)),
        Some(_) => Err(wrong_type(field)),
    }
}

/// The user that a JSON value holds; the first field with the wrong type,
/// in the order email, password, public key, is the error.
pub open spec fn user_of(j: Json) -> Result<UserView, ApiError> {
    match j {
        Json::Object(ms) => match text_of(field_of(ms@, "email"@), Field::Email) {
            Err(e) => Err(e),
            Ok(email) => match text_of(field_of(ms@, "password"@), Field::Password) {
                Err(e) => Err(e),
                Ok(password) => match bytes_of(field_of(ms@, "public_key"@), Field::PublicKey) {
                    Err(e) => Err(e),
                    Ok(public_key) => Ok(UserView { email, password, public_key }),
                },
            },
        },
        _ => Err(ApiError::InvalidRequest(Problem::NotAnObject)),
    }
}

/// The conversation that a JSON value holds; id first, then name.
pub open spec fn conversation_of(j: Json) -> Result<ConversationView, ApiError> {
    match j {
        Json::Object(ms) => match integer_of(field_of(ms@, "id"@), Field::Id) {
            Err(e) => Err(e),
            Ok(id) => match bytes_of(field_of(ms@, "name"@), Field::Name) {
                Err(e) => Err(e),
                Ok(name) => Ok(ConversationView { id, name }),
            },
        },
        _ => Err(ApiError::InvalidRequest(Problem::NotAnObject)),
    }
}

/// The message that a JSON value holds; data, media type, timestamp,
/// signature, in that order.
pub open spec fn message_of(j: Json) -> Result<MessageView, ApiError> {
    match j {
        Json::Object(ms) => match bytes_of(field_of(ms@, "data"@), Field::Data) {
            Err(e) => Err(e),
            Ok(data) => match text_of(field_of(ms@, "media_type"@), Field::MediaType) {
                Err(e) => Err(e),
                Ok(media_type) => match integer_of(field_of(ms@, "timestamp"@), Field::Timestamp) {
                    Err(e) => Err(e),
                    Ok(timestamp) => match bytes_of(field_of(ms@, "signature"@), Field::Signature) {
                        Err(e) => Err(e),
                        Ok(signature) => Ok(MessageView { data, media_type, timestamp, signature }),
                    },
                },
            },
        },
        _ => Err(ApiError::InvalidRequest(Problem::NotAnObject)),
    }
}

/// Reads a text field.
pub fn decode_text(j: Option<Json>, field: Field) -> (r: Result<Option<String>, ApiError>)
    ensures
        match r {
            Ok(v) => text_of(j, field) == Ok::<Option<Seq<char>>, ApiError>(chars_view(v)),
            Err(e) => text_of(j, field) == Err::<Option<Seq<char>>, ApiError>(e),
        },
{
    match j {
        None => Ok(None),
        Some(Json::Null) => Ok(None),
        Some(Json::Text(s)) => Ok(Some(s)),
        Some(_) => Err(ApiError::InvalidRequest(Problem::WrongType(field))),
    }
}

/// Reads a byte field.
pub fn decode_bytes(j: Option<Json>, field: Field) -> (r: Result<Option<Vec<u8>>, ApiError>)
    ensures
        match r {
            Ok(v) => bytes_of(j, field) == Ok::<Option<Seq<u8>>, ApiError>(bytes_view(v)),
            Err(e) => bytes_of(j, field) == Err::<Option<Seq<u8>>, ApiError>(e),
        },
{
    match j {
        None => Ok(None),
        Some(Json::Null) => Ok(None),
        Some(Json::Text(s)) => Ok(Some(s.as_str().as_bytes_vec())),
        Some(_) => Err(ApiError::InvalidRequest(Problem::WrongType(field))),
    }
}

/// Reads an integer field.
pub fn decode_integer(j: Option<Json>, field: Field) -> (r: Result<Option<i64>, ApiError>)
    ensures
        r == integer_of(j, field),
{
    match j {
        None => Ok(None),
        Some(Json::Null) => Ok(None),
        Some(Json::Number(Some(i))) => Ok(Some(i)),
        Some(_) => Err(ApiError::InvalidRequest(Problem::WrongType(field))),
    }
}

impl User {
    /// Decodes a user from a JSON object.
    pub fn from_json(j: Json) -> (r: Result<User, ApiError>)
        ensures
            match r {
                Ok(u) => user_of(j) == Ok::<UserView, ApiError>(u@),
                Err(e) => user_of(j) == Err::<UserView, ApiError>(e),
            },
    {
        match j {
            Json::Object(ms) => {
                let keys = vec!["email", "password", "public_key"];
                proof {
                    reveal_strlit("email");
                    reveal_strlit("password");
                    reveal_strlit("public_key");
                    assert(keys@[0] == "email");
                    assert(keys@[1] == "password");
                    assert(keys@[2] == "public_key");
                    assert("email"@.len() == 5);
                    assert("password"@.len() == 8);
                    assert("public_key"@.len() == 10);
                    assert(keys@[0]@ != keys@[1]@);
                    assert(keys@[0]@ != keys@[2]@);
                    assert(keys@[1]@ != keys@[2]@);
                }
                let mut f = pick_fields(ms, &keys);
                let public_key = f.pop().unwrap();
                let password = f.pop().unwrap();
                let email = f.pop().unwrap();
                let email = decode_text(email, Field::Email)?;
                let password = decode_text(password, Field::Password)?;
                let public_key = decode_bytes(public_key, Field::PublicKey)?;
                Ok(User { email, password, public_key })
            },
            _ => Err(ApiError::InvalidRequest(Problem::NotAnObject)),
        }
    }
}

impl Conversation {
    /// Decodes a conversation from a JSON object.
    pub fn from_json(j: Json) -> (r: Result<Conversation, ApiError>)
        ensures
            match r {
                Ok(c) => conversation_of(j) == Ok::<ConversationView, ApiError>(c@),
                Err(e) => conversation_of(j) == Err::<ConversationView, ApiError>(e),
            },
    {
        match j {
            Json::Object(ms) => {
                let keys = vec!["id", "name"];
                proof {
                    reveal_strlit("id");
                    reveal_strlit("name");
                    assert(keys@[0] == "id");
                    assert(keys@[1] == "name");
                    assert("id"@.len() == 2);
                    assert("name"@.len() == 4);
                    assert(keys@[0]@ != keys@[1]@);
                }
                let mut f = pick_fields(ms, &keys);
                let name = f.pop().unwrap();
                let id = f.pop().unwrap();
                let id = decode_integer(id, Field::Id)?;
                let name = decode_bytes(name, Field::Name)?;
                Ok(Conversation { id, name })
            },
            _ => Err(ApiError::InvalidRequest(Problem::NotAnObject)),
        }
    }
}

impl Message {
    /// Decodes a message from a JSON object.
    pub fn from_json(j: Json) -> (r: Result<Message, ApiError>)
        ensures
            match r {
                Ok(m) => message_of(j) == Ok::<MessageView, ApiError>(m@),
                Err(e) => message_of(j) == Err::<MessageView, ApiError>(e),
            },
    {
        match j {
            Json::Object(ms) => {
                let keys = vec!["data", "media_type", "timestamp", "signature"];
                proof {
                    reveal_strlit("data");
                    reveal_strlit("media_type");
                    reveal_strlit("timestamp");
                    reveal_strlit("signature");
                    assert(keys@[0] == "data");
                    assert(keys@[1] == "media_type");
                    assert(keys@[2] == "timestamp");
                    assert(keys@[3] == "signature");
                    assert("data"@.len() == 4);
                    assert("media_type"@.len() == 10);
                    assert("timestamp"@.len() == 9);
                    assert("signature"@.len() == 9);
                    assert("timestamp"@[0] != "signature"@[0]);
                    assert(keys@[0]@ != keys@[1]@);
                    assert(keys@[0]@ != keys@[2]@);
                    assert(keys@[0]@ != keys@[3]@);
                    assert(keys@[1]@ != keys@[2]@);
                    assert(keys@[1]@ != keys@[3]@);
                    assert(keys@[2]@ != keys@[3]@);
                }
                let mut f = pick_fields(ms, &keys);
                let signature = f.pop().unwrap();
                let timestamp = f.pop().unwrap();
                let media_type = f.pop().unwrap();
                let data = f.pop().unwrap();
                let data = decode_bytes(data, Field::Data)?;
                let media_type = decode_text(media_type, Field::MediaType)?;
                let timestamp = decode_integer(timestamp, Field::Timestamp)?;
                let signature = decode_bytes(signature, Field::Signature)?;
                Ok(Message { data, media_type, timestamp, signature })
            },
            _ => Err(ApiError::InvalidRequest(Problem::NotAnObject)),
        }
    }
}

/// The outcome of a handler: a status (1 on success, the only status this
/// core produces) and, for reads, the entities found.
#[derive(Clone, Debug)]
pub struct Response {
    pub status: i64,
    pub users: Option<Vec<User>>,
    pub messages: Option<Vec<Message>>,
    pub conversations: Option<Vec<Conversation>>,
}

impl Response {
    pub open spec fn is_bare_success(&self) -> bool {
        self.status == 1 && self.users is None && self.messages is None
            && self.conversations is None
    }

    /// Success, with no entities.
    pub fn success() -> (r: Response)
        ensures
            r.is_bare_success(),
    {
        Response { status: 1, users: None, messages: None, conversations: None }
    }
}

} // verus!
