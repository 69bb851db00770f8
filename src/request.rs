//! The canonical request: what an envelope asks for, and the handlers that
//! check it before any storage work is issued.
use vstd::prelude::*;
use vstd::utf8::{decode_utf8, encode_utf8, valid_utf8};
use crate::error::{ApiError, Field, Problem};
use crate::json::{field_of, json_of, parse_json, pick_fields, Json};
use crate::model::{
    conversation_of, message_of, user_of, wrong_type, Conversation, ConversationView, Message,
    MessageView, Response, User, UserView,
};
use crate::pass::{argon2i_of, password_fits, Password, SALT_LEN};
use crate::session::Login;
use crate::function::{skip_ws_from, word_end_from};
pub use crate::function::{
    classify, classify_function, first_two_words, operation_of, parse_operation, parse_target,
    target_of, Operation, Target,
};

verus! {

pub open spec fn missing(field: Field) -> ApiError {
    ApiError::InvalidRequest(Problem::Missing(field))
}

pub open spec fn empty(field: Field) -> ApiError {
    ApiError::InvalidRequest(Problem::Empty(field))
}

/// The first problem that `f` finds in the elements of `s`, in order.
pub open spec fn first_problem<T>(s: Seq<T>, f: spec_fn(T) -> Option<ApiError>) -> Option<ApiError>
    decreases s.len(),
{
    if s.len() == 0 {
        None
    } else if f(s[0]) is Some {
        f(s[0])
    } else {
        first_problem(s.drop_first(), f)
    }
}

proof fn lemma_first_problem_step<T>(s: Seq<T>, f: spec_fn(T) -> Option<ApiError>, i: int)
    requires
        0 <= i < s.len(),
    ensures
        first_problem(s.subrange(i, s.len() as int), f) == (if f(s[i]) is Some {
            f(s[i])
        } else {
            first_problem(s.subrange(i + 1, s.len() as int), f)
        }),
{
    let t = s.subrange(i, s.len() as int);
    assert(t[0] == s[i]);
    assert(t.drop_first() =~= s.subrange(i + 1, s.len() as int));
}

proof fn lemma_first_problem_end<T>(s: Seq<T>, f: spec_fn(T) -> Option<ApiError>)
    ensures
        first_problem(s.subrange(s.len() as int, s.len() as int), f) is None,
        first_problem(s.subrange(0, s.len() as int), f) == first_problem(s, f),
{
    assert(s.subrange(0, s.len() as int) =~= s);
}

/// What stops a user from being created: a missing email, password or
/// public key, in that order, or a password too long to hash.
pub open spec fn new_user_problem(u: User) -> Option<ApiError> {
    if u.email is None {
        Some(missing(Field::Email))
    } else if u.password is None {
        Some(missing(Field::Password))
    } else if u.public_key is None {
        Some(missing(Field::PublicKey))
    } else if !password_fits(encode_utf8(u.password->Some_0@)) {
        Some(ApiError::InvalidRequest(Problem::TooLong(Field::Password)))
    } else {
        None
    }
}

/// `new_user_problem` as a function value.
pub open spec fn new_user_check() -> spec_fn(User) -> Option<ApiError> {
    |u: User| new_user_problem(u)
}

/// What stops a user from being added to a conversation: a missing email.
pub open spec fn member_problem(u: User) -> Option<ApiError> {
    if u.email is None {
        Some(missing(Field::Email))
    } else {
        None
    }
}

/// `member_problem` as a function value.
pub open spec fn member_check() -> spec_fn(User) -> Option<ApiError> {
    |u: User| member_problem(u)
}

/// What stops a message from being stored: a missing data, media type,
/// timestamp or signature, in that order.
pub open spec fn message_problem(m: Message) -> Option<ApiError> {
    if m.data is None {
        Some(missing(Field::Data))
    } else if m.media_type is None {
        Some(missing(Field::MediaType))
    } else if m.timestamp is None {
        Some(missing(Field::Timestamp))
    } else if m.signature is None {
        Some(missing(Field::Signature))
    } else {
        None
    }
}

/// `message_problem` as a function value.
pub open spec fn message_check() -> spec_fn(Message) -> Option<ApiError> {
    |m: Message| message_problem(m)
}

/// The identifier of the first conversation of a request, which the reads
/// of messages and users need.
pub open spec fn first_conversation_id(cs: Option<Vec<Conversation>>) -> Result<i64, ApiError> {
    match cs {
        None => Err(missing(Field::Conversations)),
        Some(v) => if v@.len() == 0 {
            Err(empty(Field::Conversations))
        } else {
            match v@[0].id {
                None => Err(missing(Field::Id)),
                Some(id) => Ok(id),
            }
        },
    }
}

/// Relies on String::from_utf8: it succeeds exactly on valid UTF-8, and the
/// string then holds the decoded characters.
#[verifier::external_body]
fn utf8_string(bytes: Vec<u8>) -> (r: Option<String>)
    ensures
        (r is Some) == valid_utf8(bytes@),
        r matches Some(s) ==> s@ == decode_utf8(bytes@),
{
    String::from_utf8(bytes).ok()
}

fn check_new_user(u: &User) -> (r: Option<ApiError>)
    ensures
        r == new_user_problem(*u),
{
    if u.email.is_none() {
        return Some(ApiError::InvalidRequest(Problem::Missing(Field::Email)));
    }
    match &u.password {
        None => Some(ApiError::InvalidRequest(Problem::Missing(Field::Password))),
        Some(p) => {
            if u.public_key.is_none() {
                Some(ApiError::InvalidRequest(Problem::Missing(Field::PublicKey)))
            } else if p.as_str().as_bytes().len() as u64 > crate::pass::ARGON2_MAX_INPUT {
                Some(ApiError::InvalidRequest(Problem::TooLong(Field::Password)))
            } else {
                None
            }
        },
    }
}

fn check_member(u: &User) -> (r: Option<ApiError>)
    ensures
        r == member_problem(*u),
{
    if u.email.is_none() {
        Some(ApiError::InvalidRequest(Problem::Missing(Field::Email)))
    } else {
        None
    }
}

fn check_message(m: &Message) -> (r: Option<ApiError>)
    ensures
        r == message_problem(*m),
{
    if m.data.is_none() {
        Some(ApiError::InvalidRequest(Problem::Missing(Field::Data)))
    } else if m.media_type.is_none() {
        Some(ApiError::InvalidRequest(Problem::Missing(Field::MediaType)))
    } else if m.timestamp.is_none() {
        Some(ApiError::InvalidRequest(Problem::Missing(Field::Timestamp)))
    } else if m.signature.is_none() {
        Some(ApiError::InvalidRequest(Problem::Missing(Field::Signature)))
    } else {
        None
    }
}

/// The first user that cannot be created, if any.
fn find_new_user_problem(us: &Vec<User>) -> (r: Option<ApiError>)
    ensures
        r == first_problem(us@, new_user_check()),
        r is None ==> forall|j: int| 0 <= j < us@.len() ==> new_user_problem(#[trigger] us@[j]) is None,
{
    let ghost f = new_user_check();
    assert(us@.subrange(0, us@.len() as int) =~= us@);
    let mut i: usize = 0;
    while i < us.len()
        invariant
            f == new_user_check(),
            i <= us@.len(),
            first_problem(us@, f) == first_problem(us@.subrange(i as int, us@.len() as int), f),
            forall|j: int| 0 <= j < i ==> new_user_problem(#[trigger] us@[j]) is None,
        decreases us@.len() - i,
    {
        proof {
            lemma_first_problem_step(us@, f, i as int);
        }
        let p = check_new_user(&us[i]);
        assert(f(us@[i as int]) == new_user_problem(us@[i as int]));
        if p.is_some() {
            return p;
        }
        i += 1;
    }
    proof {
        lemma_first_problem_end(us@, f);
    }
    None
}

/// The first user that cannot be added to a conversation, if any.
fn find_member_problem(us: &Vec<User>) -> (r: Option<ApiError>)
    ensures
        r == first_problem(us@, member_check()),
        r is None ==> forall|j: int| 0 <= j < us@.len() ==> member_problem(#[trigger] us@[j]) is None,
{
    let ghost f = member_check();
    assert(us@.subrange(0, us@.len() as int) =~= us@);
    let mut i: usize = 0;
    while i < us.len()
        invariant
            f == member_check(),
            i <= us@.len(),
            first_problem(us@, f) == first_problem(us@.subrange(i as int, us@.len() as int), f),
            forall|j: int| 0 <= j < i ==> member_problem(#[trigger] us@[j]) is None,
        decreases us@.len() - i,
    {
        proof {
            lemma_first_problem_step(us@, f, i as int);
        }
        let p = check_member(&us[i]);
        assert(f(us@[i as int]) == member_problem(us@[i as int]));
        if p.is_some() {
            return p;
        }
        i += 1;
    }
    proof {
        lemma_first_problem_end(us@, f);
    }
    None
}

/// The first message that cannot be stored, if any.
fn find_message_problem(ms: &Vec<Message>) -> (r: Option<ApiError>)
    ensures
        r == first_problem(ms@, message_check()),
        r is None ==> forall|j: int|
            0 <= j < ms@.len() ==> message_problem(#[trigger] ms@[j]) is None,
{
    let ghost f = message_check();
    assert(ms@.subrange(0, ms@.len() as int) =~= ms@);
    let mut i: usize = 0;
    while i < ms.len()
        invariant
            f == message_check(),
            i <= ms@.len(),
            first_problem(ms@, f) == first_problem(ms@.subrange(i as int, ms@.len() as int), f),
            forall|j: int| 0 <= j < i ==> message_problem(#[trigger] ms@[j]) is None,
        decreases ms@.len() - i,
    {
        proof {
            lemma_first_problem_step(ms@, f, i as int);
        }
        let p = check_message(&ms[i]);
        assert(f(ms@[i as int]) == message_problem(ms@[i as int]));
        if p.is_some() {
            return p;
        }
        i += 1;
    }
    proof {
        lemma_first_problem_end(ms@, f);
    }
    None
}

/// A verified email and password pair, waiting for the stored credential
/// of that email.
pub struct Credentials {
    pub email: String,
    pub password: String,
}

/// One user to be stored: its email, its public key and the credential made
/// from its password.
pub struct NewUser {
    pub email: String,
    pub public_key: Vec<u8>,
    pub credential: Password,
}

/// A conversation to be created, and the emails of its members in the order
/// they are added: the caller first.
pub struct ConversationPlan {
    pub name: String,
    pub members: Vec<String>,
}

/// One message to be stored, attributed to its author.
pub struct MessageRow {
    pub author: String,
    pub data: Vec<u8>,
    pub media_type: String,
    pub timestamp: i64,
    pub signature: Vec<u8>,
}

/// The single-row fetch that a read issues.
pub enum Query {
    /// The conversation that `owner` belongs to.
    ConversationsOf { owner: String },
    /// The message of `owner` in a conversation.
    MessagesIn { owner: String, conversation: i64 },
    /// The user of `owner` in a conversation.
    UsersIn { owner: String, conversation: i64 },
}

/// The storage work that a request comes to, once it has been checked.
pub enum Action {
    /// Look up the stored credential of the email and finish with
    /// `Credentials::complete`.
    Verify(Credentials),
    /// Store each user, in order.
    CreateUsers(Vec<NewUser>),
    /// Store the conversation, then each member, in order.
    CreateConversation(ConversationPlan),
    /// Store each message, in order.
    CreateMessages(Vec<MessageRow>),
    /// Issue one fetch.
    Fetch(Query),
}

/// A stored user row made from a checked user: same email and public key,
/// and a credential of the password under a fresh 32-byte salt.
pub open spec fn new_user_row(row: NewUser, u: User) -> bool {
    &&& row.email == u.email->Some_0
    &&& row.public_key@ == u.public_key->Some_0@
    &&& row.credential.salt@.len() == SALT_LEN
    &&& row.credential.hash@ == argon2i_of(encode_utf8(u.password->Some_0@), row.credential.salt@)
}

/// A stored message row made from a checked message, attributed to `author`.
pub open spec fn message_row(row: MessageRow, m: Message, author: String) -> bool {
    &&& row.author == author
    &&& row.data@ == m.data->Some_0@
    &&& row.media_type == m.media_type->Some_0
    &&& row.timestamp == m.timestamp->Some_0
    &&& row.signature@ == m.signature->Some_0@
}

/// A user stored by `create_users` can log in: the credential made for a
/// checked user accepts that user's password, so `Credentials::complete`
/// with it authenticates the session.
pub proof fn lemma_created_user_verifies(row: NewUser, u: User)
    requires
        new_user_problem(u) is None,
        new_user_row(row, u),
    ensures
        row.credential.accepts(encode_utf8(u.password->Some_0@)),
{
    crate::pass::lemma_hash_then_verify(encode_utf8(u.password->Some_0@), row.credential);
}

/// What `Request::create_users` comes to.
pub open spec fn create_users_outcome(
    users: Option<Vec<User>>,
    r: Result<Vec<NewUser>, ApiError>,
) -> bool {
    match users {
        None => r matches Err(e) && e == missing(Field::Users),
        Some(us) => if us@.len() == 0 {
            r matches Err(e) && e == empty(Field::Users)
        } else {
            match first_problem(us@, new_user_check()) {
                Some(p) => r matches Err(e) && e == p,
                None => (r matches Err(e) && e == ApiError::Integrity) || (r matches Ok(
                    rows,
                ) && rows@.len() == us@.len() && forall|i: int|
                    0 <= i < rows@.len() ==> #[trigger] new_user_row(rows@[i], us@[i])),
            }
        }
    }
}

proof fn lemma_problem_found<T>(s: Seq<T>, f: spec_fn(T) -> Option<ApiError>, i: int)
    requires
        0 <= i < s.len(),
        f(s[i]) is Some,
    ensures
        first_problem(s, f) is Some,
    decreases i,
{
    if f(s[0]) is None {
        assert(s.drop_first()[i - 1] == s[i]);
        lemma_problem_found(s.drop_first(), f, i - 1);
    }
}

proof fn lemma_new_user_problem_kind(s: Seq<User>)
    ensures
        first_problem(s, new_user_check()) matches Some(p) ==> p is InvalidRequest,
    decreases s.len(),
{
    if s.len() > 0 {
        lemma_new_user_problem_kind(s.drop_first());
    }
}

/// A batch of new users in which some user lacks a public key is refused
/// with `InvalidRequest` as a whole: no row is made, so no storage write is
/// issued for that user or for any other user of the batch.
pub proof fn lemma_incomplete_batch_refused(
    users: Vec<User>,
    i: int,
    r: Result<Vec<NewUser>, ApiError>,
)
    requires
        0 <= i < users@.len(),
        users@[i].public_key is None,
        create_users_outcome(Some(users), r),
    ensures
        r matches Err(e) && e is InvalidRequest,
{
    assert(new_user_check()(users@[i]) is Some);
    lemma_problem_found(users@, new_user_check(), i);
    lemma_new_user_problem_kind(users@);
}

/// What `Request::create_conversations` comes to.
pub open spec fn create_conversations_outcome(
    users: Option<Vec<User>>,
    conversations: Option<Vec<Conversation>>,
    login: Login,
    r: Result<ConversationPlan, ApiError>,
) -> bool {
    &&& !login.is_authenticated ==> (r matches Err(e) && e == ApiError::Unauthorized)
    &&& login.is_authenticated ==> match (users, conversations) {
        (None, _) => r matches Err(e) && e == missing(Field::Users),
        (Some(_), None) => r matches Err(e) && e == missing(Field::Conversations),
        (Some(us), Some(cs)) => if cs@.len() == 0 {
            r matches Err(e) && e == empty(Field::Conversations)
        } else {
            match cs@[0].name {
                None => r matches Err(e) && e == missing(Field::Name),
                Some(name) => if !valid_utf8(name@) {
                    r matches Err(e) && e == ApiError::InvalidRequest(
                        Problem::NotUtf8(Field::Name),
                    )
                } else {
                    match first_problem(us@, member_check()) {
                        Some(p) => r matches Err(e) && e == p,
                        None => r matches Ok(plan) && plan.name@ == decode_utf8(name@)
                            && plan.members@.len() == us@.len() + 1
                            && plan.members@[0] == login.email && forall|i: int|
                            0 <= i < us@.len() ==> plan.members@[i + 1]
                                == #[trigger] us@[i].email->Some_0,
                    }
                }
            }
        }
    }
}

/// What `Request::create_messages` comes to.
pub open spec fn create_messages_outcome(
    messages: Option<Vec<Message>>,
    conversations: Option<Vec<Conversation>>,
    login: Login,
    r: Result<Vec<MessageRow>, ApiError>,
) -> bool {
    &&& !login.is_authenticated ==> (r matches Err(e) && e == ApiError::Unauthorized)
    &&& login.is_authenticated ==> match (messages, conversations) {
        (None, _) => r matches Err(e) && e == missing(Field::Messages),
        (Some(_), None) => r matches Err(e) && e == missing(Field::Conversations),
        (Some(ms), Some(cs)) => if cs@.len() == 0 {
            r matches Err(e) && e == empty(Field::Conversations)
        } else {
            match first_problem(ms@, message_check()) {
                Some(p) => r matches Err(e) && e == p,
                None => r matches Ok(rows) && rows@.len() == ms@.len() && forall|i: int|
                    0 <= i < ms@.len() ==> #[trigger] message_row(
                        rows@[i],
                        ms@[i],
                        login.email,
                    ),
            }
        }
    }
}

/// A canonical request: what is asked for, and the entity lists that came
/// with it. The first element of a list is the subject where one is needed.
#[derive(Clone, Debug, PartialEq, Eq)]
pub struct Request {
    pub operation: Operation,
    pub target: Target,
    pub users: Option<Vec<User>>,
    pub messages: Option<Vec<Message>>,
    pub conversations: Option<Vec<Conversation>>,
}

/// The request that a `function` string and the entity lists make.
pub open spec fn parsed(
    function: Seq<char>,
    users: Option<Vec<User>>,
    messages: Option<Vec<Message>>,
    conversations: Option<Vec<Conversation>>,
) -> Result<Request, ApiError> {
    match classify(function) {
        Err(e) => Err(e),
        Ok((operation, target)) => Ok(Request { operation, target, users, messages, conversations }),
    }
}

/// The operations that have a handler: verify users, create anything,
/// read anything.
pub open spec fn handled(operation: Operation, target: Target) -> bool {
    ||| operation == Operation::Verify && target == Target::Users
    ||| operation == Operation::Create
    ||| operation == Operation::Read
}

/// Parsing is a function of the envelope alone: two parses of the same
/// `function` string and entity lists give equal requests, or equal errors.
pub proof fn lemma_parse_idempotent(
    function: Seq<char>,
    users: Option<Vec<User>>,
    messages: Option<Vec<Message>>,
    conversations: Option<Vec<Conversation>>,
    first: Result<Request, ApiError>,
    second: Result<Request, ApiError>,
)
    requires
        first == parsed(function, users, messages, conversations),
        second == parsed(function, users, messages, conversations),
    ensures
        first == second,
{
}

/// What a verification asks for: the email and password of the first user.
pub open spec fn verify_outcome(users: Option<Vec<User>>) -> Result<Credentials, ApiError> {
    match users {
        None => Err(missing(Field::Users)),
        Some(us) => if us@.len() == 0 {
            Err(empty(Field::Users))
        } else {
            match us@[0].email {
                None => Err(missing(Field::Email)),
                Some(email) => match us@[0].password {
                    None => Err(missing(Field::Password)),
                    Some(password) => Ok(Credentials { email, password }),
                },
            }
        },
    }
}

/// A request as plain values.
pub struct RequestView {
    pub operation: Operation,
    pub target: Target,
    pub users: Option<Seq<UserView>>,
    pub messages: Option<Seq<MessageView>>,
    pub conversations: Option<Seq<ConversationView>>,
}

impl View for Request {
    type V = RequestView;

    open spec fn view(&self) -> RequestView {
        RequestView {
            operation: self.operation,
            target: self.target,
            users: match self.users {
                Some(v) => Some(v@.map_values(|u: User| u@)),
                None => None,
            },
            messages: match self.messages {
                Some(v) => Some(v@.map_values(|m: Message| m@)),
                None => None,
            },
            conversations: match self.conversations {
                Some(v) => Some(v@.map_values(|c: Conversation| c@)),
                None => None,
            },
        }
    }
}

/// What `f` decodes from each element of an array, or the error of the
/// first element that it refuses.
pub open spec fn decode_all<V>(items: Seq<Json>, f: spec_fn(Json) -> Result<V, ApiError>) -> Result<
    Seq<V>,
    ApiError,
>
    decreases items.len(),
{
    if items.len() == 0 {
        Ok(seq![])
    } else {
        match decode_all(items.drop_last(), f) {
            Err(e) => Err(e),
            Ok(vs) => match f(items.last()) {
                Err(e) => Err(e),
                Ok(v) => Ok(vs.push(v)),
            },
        }
    }
}

proof fn lemma_decode_all_prefix_err<V>(
    s: Seq<Json>,
    f: spec_fn(Json) -> Result<V, ApiError>,
    k: int,
    e: ApiError,
)
    requires
        0 <= k <= s.len(),
        decode_all(s.subrange(0, k), f) == Err::<Seq<V>, ApiError>(e),
    ensures
        decode_all(s, f) == Err::<Seq<V>, ApiError>(e),
    decreases s.len() - k,
{
    if k < s.len() {
        assert(s.subrange(0, k + 1).drop_last() =~= s.subrange(0, k));
        lemma_decode_all_prefix_err(s, f, k + 1, e);
    } else {
        assert(s.subrange(0, k) =~= s);
    }
}

pub open spec fn user_decoder() -> spec_fn(Json) -> Result<UserView, ApiError> {
    |j: Json| user_of(j)
}

pub open spec fn message_decoder() -> spec_fn(Json) -> Result<MessageView, ApiError> {
    |j: Json| message_of(j)
}

pub open spec fn conversation_decoder() -> spec_fn(Json) -> Result<ConversationView, ApiError> {
    |j: Json| conversation_of(j)
}

/// The users that the elements of an array hold.
pub open spec fn users_of(items: Seq<Json>) -> Result<Seq<UserView>, ApiError> {
    decode_all(items, user_decoder())
}

/// The messages that the elements of an array hold.
pub open spec fn messages_of(items: Seq<Json>) -> Result<Seq<MessageView>, ApiError> {
    decode_all(items, message_decoder())
}

/// The conversations that the elements of an array hold.
pub open spec fn conversations_of(items: Seq<Json>) -> Result<Seq<ConversationView>, ApiError> {
    decode_all(items, conversation_decoder())
}

/// An optional list field: an absent key is `None`, an array is decoded
/// element by element, and anything else, `null` included, is refused.
pub open spec fn user_list_of(j: Option<Json>) -> Result<Option<Seq<UserView>>, ApiError> {
    match j {
        None => Ok(None),
        Some(Json::List(items)) => match users_of(items@) {
            Err(e) => Err(e),
            Ok(us) => Ok(Some(us)),
        },
        Some(_) => Err(wrong_type(Field::Users)),
    }
}

pub open spec fn message_list_of(j: Option<Json>) -> Result<Option<Seq<MessageView>>, ApiError> {
    match j {
        None => Ok(None),
        Some(Json::List(items)) => match messages_of(items@) {
            Err(e) => Err(e),
            Ok(ms) => Ok(Some(ms)),
        },
        Some(_) => Err(wrong_type(Field::Messages)),
    }
}

pub open spec fn conversation_list_of(j: Option<Json>) -> Result<
    Option<Seq<ConversationView>>,
    ApiError,
> {
    match j {
        None => Ok(None),
        Some(Json::List(items)) => match conversations_of(items@) {
            Err(e) => Err(e),
            Ok(cs) => Ok(Some(cs)),
        },
        Some(_) => Err(wrong_type(Field::Conversations)),
    }
}

/// The request that a JSON envelope holds: its `function` string names the
/// operation and the target; then its `users`, `messages` and
/// `conversations` lists are decoded in that order. The first failure is
/// the error, and no partial request is made.
pub open spec fn envelope_of(j: Json) -> Result<RequestView, ApiError> {
    match j {
        Json::Object(ms) => match field_of(ms@, "function"@) {
            None => Err(missing(Field::Function)),
            Some(Json::Null) => Err(missing(Field::Function)),
            Some(Json::Text(f)) => match classify(f@) {
                Err(e) => Err(e),
                Ok((operation, target)) => match user_list_of(field_of(ms@, "users"@)) {
                    Err(e) => Err(e),
                    Ok(users) => match message_list_of(field_of(ms@, "messages"@)) {
                        Err(e) => Err(e),
                        Ok(messages) => match conversation_list_of(
                            field_of(ms@, "conversations"@),
                        ) {
                            Err(e) => Err(e),
                            Ok(conversations) => Ok(
                                RequestView { operation, target, users, messages, conversations },
                            ),
                        },
                    },
                },
            },
            Some(_) => Err(wrong_type(Field::Function)),
        },
        _ => Err(ApiError::InvalidRequest(Problem::NotAnObject)),
    }
}

/// The outcome of parsing a JSON text: `NotJson` where serde_json reads no
/// value from it, else the request that the value holds.
pub open spec fn parse_outcome(text: Seq<char>) -> Result<RequestView, ApiError> {
    match json_of(text) {
        None => Err(ApiError::InvalidRequest(Problem::NotJson)),
        Some(j) => envelope_of(j),
    }
}

/// Whether `r` is what parsing `text` comes to.
pub open spec fn parses_as(text: Seq<char>, r: Result<Request, ApiError>) -> bool {
    match r {
        Ok(req) => parse_outcome(text) == Ok::<RequestView, ApiError>(req@),
        Err(e) => parse_outcome(text) == Err::<RequestView, ApiError>(e),
    }
}

/// Parsing holds no hidden state: two parses of the same text both succeed
/// with structurally equal requests, or both fail with the same error.
pub proof fn lemma_from_json_idempotent(
    text: Seq<char>,
    first: Result<Request, ApiError>,
    second: Result<Request, ApiError>,
)
    requires
        parses_as(text, first),
        parses_as(text, second),
    ensures
        (first is Ok) == (second is Ok),
        first matches Ok(a) ==> (second matches Ok(b) && a@ == b@),
        first matches Err(e1) ==> (second matches Err(e2) && e1 == e2),
{
}

fn decode_users(j: Option<Json>) -> (r: Result<Option<Vec<User>>, ApiError>)
    ensures
        match r {
            Ok(Some(v)) => user_list_of(j) == Ok::<Option<Seq<UserView>>, ApiError>(
                Some(v@.map_values(|u: User| u@)),
            ),
            Ok(None) => user_list_of(j) == Ok::<Option<Seq<UserView>>, ApiError>(None),
            Err(e) => user_list_of(j) == Err::<Option<Seq<UserView>>, ApiError>(e),
        },
{
    match j {
        None => Ok(None),
        Some(Json::List(items)) => {
            let ghost s = items@;
            let ghost n = items@.len();
            let len = items.len();
            let mut rest = items;
            let mut out: Vec<User> = Vec::new();
            let mut i: usize = 0;
            assert(s.subrange(0, 0) =~= seq![]);
            assert(out@.map_values(|u: User| u@) =~= seq![]);
            while rest.len() > 0
                invariant
                    j == Some(Json::List(items)),
                    s == items@,
                    n == s.len(),
                    i <= n,
                    n == len,
                    rest@ == s.subrange(i as int, n as int),
                    users_of(s.subrange(0, i as int)) == Ok::<Seq<UserView>, ApiError>(
                        out@.map_values(|u: User| u@),
                    ),
                decreases rest@.len(),
            {
                let item = rest.remove(0);
                assert(s.subrange(0, i + 1).drop_last() =~= s.subrange(0, i as int));
                assert(s.subrange(0, i + 1).last() == s[i as int]);
                let u = match User::from_json(item) {
                    Ok(u) => u,
                    Err(e) => {
                        proof {
                            lemma_decode_all_prefix_err(s, user_decoder(), i + 1, e);
                        }
                        return Err(e);
                    },
                };
                let ghost before = out@;
                out.push(u);
                assert(out@.map_values(|u: User| u@) =~= before.map_values(|u: User| u@).push(u@));
                i += 1;
            }
            assert(s.subrange(0, n as int) =~= s);
            Ok(Some(out))
        },
        Some(_) => Err(ApiError::InvalidRequest(Problem::WrongType(Field::Users))),
    }
}

fn decode_messages(j: Option<Json>) -> (r: Result<Option<Vec<Message>>, ApiError>)
    ensures
        match r {
            Ok(Some(v)) => message_list_of(j) == Ok::<Option<Seq<MessageView>>, ApiError>(
                Some(v@.map_values(|x: Message| x@)),
            ),
            Ok(None) => message_list_of(j) == Ok::<Option<Seq<MessageView>>, ApiError>(None),
            Err(e) => message_list_of(j) == Err::<Option<Seq<MessageView>>, ApiError>(e),
        },
{
    match j {
        None => Ok(None),
        Some(Json::List(items)) => {
            let ghost s = items@;
            let ghost n = items@.len();
            let len = items.len();
            let mut rest = items;
            let mut out: Vec<Message> = Vec::new();
            let mut i: usize = 0;
            assert(s.subrange(0, 0) =~= seq![]);
            assert(out@.map_values(|x: Message| x@) =~= seq![]);
            while rest.len() > 0
                invariant
                    j == Some(Json::List(items)),
                    s == items@,
                    n == s.len(),
                    i <= n,
                    n == len,
                    rest@ == s.subrange(i as int, n as int),
                    messages_of(s.subrange(0, i as int)) == Ok::<Seq<MessageView>, ApiError>(
                        out@.map_values(|x: Message| x@),
                    ),
                decreases rest@.len(),
            {
                let item = rest.remove(0);
                assert(s.subrange(0, i + 1).drop_last() =~= s.subrange(0, i as int));
                assert(s.subrange(0, i + 1).last() == s[i as int]);
                let u = match Message::from_json(item) {
                    Ok(u) => u,
                    Err(e) => {
                        proof {
                            lemma_decode_all_prefix_err(s, message_decoder(), i + 1, e);
                        }
                        return Err(e);
                    },
                };
                let ghost before = out@;
                out.push(u);
                assert(out@.map_values(|x: Message| x@) =~= before.map_values(|x: Message| x@).push(u@));
                i += 1;
            }
            assert(s.subrange(0, n as int) =~= s);
            Ok(Some(out))
        },
        Some(_) => Err(ApiError::InvalidRequest(Problem::WrongType(Field::Messages))),
    }
}

fn decode_conversations(j: Option<Json>) -> (r: Result<Option<Vec<Conversation>>, ApiError>)
    ensures
        match r {
            Ok(Some(v)) => conversation_list_of(j) == Ok::<Option<Seq<ConversationView>>, ApiError>(
                Some(v@.map_values(|x: Conversation| x@)),
            ),
            Ok(None) => conversation_list_of(j) == Ok::<Option<Seq<ConversationView>>, ApiError>(None),
            Err(e) => conversation_list_of(j) == Err::<Option<Seq<ConversationView>>, ApiError>(e),
        },
{
    match j {
        None => Ok(None),
        Some(Json::List(items)) => {
            let ghost s = items@;
            let ghost n = items@.len();
            let len = items.len();
            let mut rest = items;
            let mut out: Vec<Conversation> = Vec::new();
            let mut i: usize = 0;
            assert(s.subrange(0, 0) =~= seq![]);
            assert(out@.map_values(|x: Conversation| x@) =~= seq![]);
            while rest.len() > 0
                invariant
                    j == Some(Json::List(items)),
                    s == items@,
                    n == s.len(),
                    i <= n,
                    n == len,
                    rest@ == s.subrange(i as int, n as int),
                    conversations_of(s.subrange(0, i as int)) == Ok::<Seq<ConversationView>, ApiError>(
                        out@.map_values(|x: Conversation| x@),
                    ),
                decreases rest@.len(),
            {
                let item = rest.remove(0);
                assert(s.subrange(0, i + 1).drop_last() =~= s.subrange(0, i as int));
                assert(s.subrange(0, i + 1).last() == s[i as int]);
                let u = match Conversation::from_json(item) {
                    Ok(u) => u,
                    Err(e) => {
                        proof {
                            lemma_decode_all_prefix_err(s, conversation_decoder(), i + 1, e);
                        }
                        return Err(e);
                    },
                };
                let ghost before = out@;
                out.push(u);
                assert(out@.map_values(|x: Conversation| x@) =~= before.map_values(|x: Conversation| x@).push(u@));
                i += 1;
            }
            assert(s.subrange(0, n as int) =~= s);
            Ok(Some(out))
        },
        Some(_) => Err(ApiError::InvalidRequest(Problem::WrongType(Field::Conversations))),
    }
}

impl Request {
    /// Parses a JSON envelope: its `function` string names the operation
    /// and the target, and its optional `users`, `messages` and
    /// `conversations` arrays hold the entities. The first failure, in that
    /// order, aborts the parse.
    pub fn from_json(data: &str) -> (r: Result<Request, ApiError>)
        ensures
            parses_as(data@, r),
    {
        match parse_json(data) {
            None => Err(ApiError::InvalidRequest(Problem::NotJson)),
            Some(j) => Request::from_value(j),
        }
    }

    /// Builds a request from a JSON value.
    pub fn from_value(j: Json) -> (r: Result<Request, ApiError>)
        ensures
            match r {
                Ok(req) => envelope_of(j) == Ok::<RequestView, ApiError>(req@),
                Err(e) => envelope_of(j) == Err::<RequestView, ApiError>(e),
            },
    {
        let ms = match j {
            Json::Object(ms) => ms,
            _ => {
                return Err(ApiError::InvalidRequest(Problem::NotAnObject));
            },
        };
        let keys = vec!["function", "users", "messages", "conversations"];
        proof {
            reveal_strlit("function");
            reveal_strlit("users");
            reveal_strlit("messages");
            reveal_strlit("conversations");
            assert(keys@[0] == "function");
            assert(keys@[1] == "users");
            assert(keys@[2] == "messages");
            assert(keys@[3] == "conversations");
            assert("function"@.len() == 8);
            assert("users"@.len() == 5);
            assert("messages"@.len() == 8);
            assert("conversations"@.len() == 13);
            assert("function"@[0] != "messages"@[0]);
            assert(keys@[0]@ != keys@[1]@);
            assert(keys@[0]@ != keys@[2]@);
            assert(keys@[0]@ != keys@[3]@);
            assert(keys@[1]@ != keys@[2]@);
            assert(keys@[1]@ != keys@[3]@);
            assert(keys@[2]@ != keys@[3]@);
        }
        let mut f = pick_fields(ms, &keys);
        let conversations = f.pop().unwrap();
        let messages = f.pop().unwrap();
        let users = f.pop().unwrap();
        let function = f.pop().unwrap();
        let function = match function {
            Some(Json::Text(s)) => s,
            None => {
                return Err(ApiError::InvalidRequest(Problem::Missing(Field::Function)));
            },
            Some(Json::Null) => {
                return Err(ApiError::InvalidRequest(Problem::Missing(Field::Function)));
            },
            Some(_) => {
                return Err(ApiError::InvalidRequest(Problem::WrongType(Field::Function)));
            },
        };
        let (operation, target) = match classify_function(function.as_str()) {
            Ok(p) => p,
            Err(e) => {
                return Err(e);
            },
        };
        let users = match decode_users(users) {
            Ok(v) => v,
            Err(e) => {
                return Err(e);
            },
        };
        let messages = match decode_messages(messages) {
            Ok(v) => v,
            Err(e) => {
                return Err(e);
            },
        };
        let conversations = match decode_conversations(conversations) {
            Ok(v) => v,
            Err(e) => {
                return Err(e);
            },
        };
        let r = Request { operation, target, users, messages, conversations };
        assert(envelope_of(j) == Ok::<RequestView, ApiError>(r@));
        Ok(r)
    }

    /// Builds a request from a `function` string and entity lists that are
    /// already decoded.
    pub fn from_parts(
        function: &str,
        users: Option<Vec<User>>,
        messages: Option<Vec<Message>>,
        conversations: Option<Vec<Conversation>>,
    ) -> (r: Result<Request, ApiError>)
        ensures
            r == parsed(function@, users, messages, conversations),
    {
        let (operation, target) = classify_function(function)?;
        Ok(Request { operation, target, users, messages, conversations })
    }

    /// The first two whitespace-separated words of `function`, or `None`
    /// where it has fewer.
    pub fn split_function(function: &str) -> (r: Option<(String, String)>)
        ensures
            match first_two_words(function@) {
                None => r is None,
                Some((w1, w2)) => r matches Some((a, b)) && a@ == w1 && b@ == w2,
            },
    {
        let n = function.unicode_len();
        let a1 = skip_ws_from(function, n, 0);
        let b1 = word_end_from(function, n, a1);
        let a2 = skip_ws_from(function, n, b1);
        let b2 = word_end_from(function, n, a2);
        if a2 < n {
            let w1 = function.substring_char(a1, b1).to_owned();
            let w2 = function.substring_char(a2, b2).to_owned();
            Some((w1, w2))
        } else {
            None
        }
    }

    /// Checks a verification request: the first user must carry an email
    /// and a password. No session is needed.
    pub fn verify_users(self) -> (r: Result<Credentials, ApiError>)
        ensures
            r == verify_outcome(self.users),
    {
        let mut users = match self.users {
            None => {
                return Err(ApiError::InvalidRequest(Problem::Missing(Field::Users)));
            },
            Some(us) => us,
        };
        if users.len() == 0 {
            return Err(ApiError::InvalidRequest(Problem::Empty(Field::Users)));
        }
        let user = users.remove(0);
        let email = match user.email {
            None => {
                return Err(ApiError::InvalidRequest(Problem::Missing(Field::Email)));
            },
            Some(e) => e,
        };
        let password = match user.password {
            None => {
                return Err(ApiError::InvalidRequest(Problem::Missing(Field::Password)));
            },
            Some(p) => p,
        };
        Ok(Credentials { email, password })
    }

    /// Checks a user-creation request and makes a credential for each user.
    /// The list must be non-empty and every user must carry an email, a
    /// password and a public key; all users are checked before any
    /// credential is made, so a refused request leads to no storage write.
    /// No session is needed.
    pub fn create_users(self) -> (r: Result<Vec<NewUser>, ApiError>)
        ensures
            create_users_outcome(self.users, r),
    {
        let users = match self.users {
            None => {
                return Err(ApiError::InvalidRequest(Problem::Missing(Field::Users)));
            },
            Some(us) => us,
        };
        if users.len() == 0 {
            return Err(ApiError::InvalidRequest(Problem::Empty(Field::Users)));
        }
        if let Some(p) = find_new_user_problem(&users) {
            return Err(p);
        }
        let mut rows: Vec<NewUser> = Vec::new();
        let mut i: usize = 0;
        while i < users.len()
            invariant
                self.users == Some(users),
                users@.len() > 0,
                first_problem(users@, new_user_check()) is None,
                i <= users@.len(),
                rows@.len() == i,
                forall|j: int| 0 <= j < users@.len() ==> new_user_problem(#[trigger] users@[j]) is None,
                forall|j: int| 0 <= j < i ==> #[trigger] new_user_row(rows@[j], users@[j]),
            decreases users@.len() - i,
        {
            let u = &users[i];
            assert(new_user_problem(users@[i as int]) is None);
            let email = match &u.email {
                Some(e) => e.clone(),
                None => {
                    return Err(ApiError::InvalidRequest(Problem::Missing(Field::Email)));
                },
            };
            let public_key = match &u.public_key {
                Some(k) => k.clone(),
                None => {
                    return Err(ApiError::InvalidRequest(Problem::Missing(Field::PublicKey)));
                },
            };
            let credential = match &u.password {
                Some(p) => Password::hash(p.as_str())?,
                None => {
                    return Err(ApiError::InvalidRequest(Problem::Missing(Field::Password)));
                },
            };
            assert(public_key@ =~= u.public_key->Some_0@);
            rows.push(NewUser { email, public_key, credential });
            i += 1;
        }
        Ok(rows)
    }

    /// Checks a conversation-creation request. The session must be
    /// authenticated; the request needs a `users` list and a non-empty
    /// `conversations` list whose first element has a UTF-8 name, and every
    /// listed user needs an email. The plan adds the caller first, then each
    /// listed user in order. Every element is checked before the plan is
    /// made, so a refused request leads to no storage write.
    pub fn create_conversations(self, login: &Login) -> (r: Result<ConversationPlan, ApiError>)
        ensures
            create_conversations_outcome(self.users, self.conversations, *login, r),
    {
        if !login.is_authenticated() {
            return Err(ApiError::Unauthorized);
        }
        let users = match self.users {
            None => {
                return Err(ApiError::InvalidRequest(Problem::Missing(Field::Users)));
            },
            Some(us) => us,
        };
        let mut conversations = match self.conversations {
            None => {
                return Err(ApiError::InvalidRequest(Problem::Missing(Field::Conversations)));
            },
            Some(cs) => cs,
        };
        if conversations.len() == 0 {
            return Err(ApiError::InvalidRequest(Problem::Empty(Field::Conversations)));
        }
        let conversation = conversations.remove(0);
        let name = match conversation.name {
            None => {
                return Err(ApiError::InvalidRequest(Problem::Missing(Field::Name)));
            },
            Some(n) => n,
        };
        let name = match utf8_string(name) {
            None => {
                return Err(ApiError::InvalidRequest(Problem::NotUtf8(Field::Name)));
            },
            Some(s) => s,
        };
        if let Some(p) = find_member_problem(&users) {
            return Err(p);
        }
        let mut members: Vec<String> = Vec::new();
        members.push(login.email.clone());
        let mut i: usize = 0;
        while i < users.len()
            invariant
                i <= users@.len(),
                members@.len() == i + 1,
                members@[0] == login.email,
                forall|j: int| 0 <= j < users@.len() ==> member_problem(#[trigger] users@[j]) is None,
                forall|j: int|
                    0 <= j < i ==> members@[j + 1] == #[trigger] users@[j].email->Some_0,
            decreases users@.len() - i,
        {
            assert(member_problem(users@[i as int]) is None);
            let email = match &users[i].email {
                Some(e) => e.clone(),
                None => {
                    return Err(ApiError::InvalidRequest(Problem::Missing(Field::Email)));
                },
            };
            members.push(email);
            i += 1;
        }
        Ok(ConversationPlan { name, members })
    }

    /// Checks a message-creation request. The session must be
    /// authenticated; the request needs a `messages` list and a non-empty
    /// `conversations` list, and every message needs its data, media type,
    /// timestamp and signature. Each message is attributed to the caller.
    /// The first conversation's identifier is not read. Every message is
    /// checked before any row is made, so a refused request leads to no
    /// storage write.
    pub fn create_messages(self, login: &Login) -> (r: Result<Vec<MessageRow>, ApiError>)
        ensures
            create_messages_outcome(self.messages, self.conversations, *login, r),
    {
        if !login.is_authenticated() {
            return Err(ApiError::Unauthorized);
        }
        let messages = match self.messages {
            None => {
                return Err(ApiError::InvalidRequest(Problem::Missing(Field::Messages)));
            },
            Some(ms) => ms,
        };
        let conversations = match self.conversations {
            None => {
                return Err(ApiError::InvalidRequest(Problem::Missing(Field::Conversations)));
            },
            Some(cs) => cs,
        };
        if conversations.len() == 0 {
            return Err(ApiError::InvalidRequest(Problem::Empty(Field::Conversations)));
        }
        if let Some(p) = find_message_problem(&messages) {
            return Err(p);
        }
        let mut rows: Vec<MessageRow> = Vec::new();
        let mut i: usize = 0;
        while i < messages.len()
            invariant
                i <= messages@.len(),
                rows@.len() == i,
                forall|j: int|
                    0 <= j < messages@.len() ==> message_problem(#[trigger] messages@[j]) is None,
                forall|j: int|
                    0 <= j < i ==> #[trigger] message_row(rows@[j], messages@[j], login.email),
            decreases messages@.len() - i,
        {
            let m = &messages[i];
            assert(message_problem(messages@[i as int]) is None);
            let data = match &m.data {
                Some(d) => d.clone(),
                None => {
                    return Err(ApiError::InvalidRequest(Problem::Missing(Field::Data)));
                },
            };
            let media_type = match &m.media_type {
                Some(t) => t.clone(),
                None => {
                    return Err(ApiError::InvalidRequest(Problem::Missing(Field::MediaType)));
                },
            };
            let timestamp = match m.timestamp {
                Some(t) => t,
                None => {
                    return Err(ApiError::InvalidRequest(Problem::Missing(Field::Timestamp)));
                },
            };
            let signature = match &m.signature {
                Some(s) => s.clone(),
                None => {
                    return Err(ApiError::InvalidRequest(Problem::Missing(Field::Signature)));
                },
            };
            assert(data@ =~= m.data->Some_0@);
            assert(signature@ =~= m.signature->Some_0@);
            rows.push(
                MessageRow { author: login.email.clone(), data, media_type, timestamp, signature },
            );
            i += 1;
        }
        Ok(rows)
    }

    /// The identifier of the first conversation.
    fn conversation_id(self) -> (r: Result<i64, ApiError>)
        ensures
            r == first_conversation_id(self.conversations),
    {
        let conversations = match self.conversations {
            None => {
                return Err(ApiError::InvalidRequest(Problem::Missing(Field::Conversations)));
            },
            Some(cs) => cs,
        };
        if conversations.len() == 0 {
            return Err(ApiError::InvalidRequest(Problem::Empty(Field::Conversations)));
        }
        match conversations[0].id {
            None => Err(ApiError::InvalidRequest(Problem::Missing(Field::Id))),
            Some(id) => Ok(id),
        }
    }

    /// Checks a read of the caller's conversations: only a session is
    /// needed.
    pub fn read_conversations(self, login: &Login) -> (r: Result<Query, ApiError>)
        ensures
            !login.is_authenticated ==> (r matches Err(e) && e == ApiError::Unauthorized),
            login.is_authenticated ==> (r matches Ok(Query::ConversationsOf { owner }) && owner
                == login.email),
    {
        if !login.is_authenticated() {
            return Err(ApiError::Unauthorized);
        }
        Ok(Query::ConversationsOf { owner: login.email.clone() })
    }

    /// Checks a read of the caller's messages in a conversation: a session
    /// and the first conversation's identifier are needed.
    pub fn read_messages(self, login: &Login) -> (r: Result<Query, ApiError>)
        ensures
            !login.is_authenticated ==> (r matches Err(e) && e == ApiError::Unauthorized),
            login.is_authenticated ==> match first_conversation_id(self.conversations) {
                Err(e) => r matches Err(e2) && e2 == e,
                Ok(id) => r matches Ok(Query::MessagesIn { owner, conversation }) && owner
                    == login.email && conversation == id,
            },
    {
        if !login.is_authenticated() {
            return Err(ApiError::Unauthorized);
        }
        let id = self.conversation_id()?;
        Ok(Query::MessagesIn { owner: login.email.clone(), conversation: id })
    }

    /// Checks a read of the users of a conversation: a session and the
    /// first conversation's identifier are needed.
    pub fn read_users(self, login: &Login) -> (r: Result<Query, ApiError>)
        ensures
            !login.is_authenticated ==> (r matches Err(e) && e == ApiError::Unauthorized),
            login.is_authenticated ==> match first_conversation_id(self.conversations) {
                Err(e) => r matches Err(e2) && e2 == e,
                Ok(id) => r matches Ok(Query::UsersIn { owner, conversation }) && owner
                    == login.email && conversation == id,
            },
    {
        if !login.is_authenticated() {
            return Err(ApiError::Unauthorized);
        }
        let id = self.conversation_id()?;
        Ok(Query::UsersIn { owner: login.email.clone(), conversation: id })
    }

    /// Routes a request to the handler of its operation and target. Every
    /// operation on conversations or messages needs an authenticated
    /// session, whatever the payload; only verification and creation of
    /// users go without one. Update and delete have no handler yet.
    pub fn dispatch(self, login: &Login) -> (r: Result<Action, ApiError>)
        ensures
            self.target != Target::Users && !login.is_authenticated ==> (r matches Err(e) && e
                == ApiError::Unauthorized),
            self.operation == Operation::Verify && self.target == Target::Users ==> match verify_outcome(self.users) {
                Ok(c) => r matches Ok(Action::Verify(c2)) && c2 == c,
                Err(e) => r matches Err(e2) && e2 == e,
            },
            !handled(self.operation, self.target) && (self.target == Target::Users
                || login.is_authenticated) ==> (r matches Err(e) && e == ApiError::InvalidRequest(
                Problem::Unsupported,
            )),
            r matches Ok(_) ==> handled(self.operation, self.target),
            self.operation == Operation::Create && self.target == Target::Users ==> match r {
                Ok(Action::CreateUsers(rows)) => create_users_outcome(self.users, Ok(rows)),
                Ok(_) => false,
                Err(e) => create_users_outcome(self.users, Err(e)),
            },
            self.operation == Operation::Create && self.target == Target::Conversations ==> match r {
                Ok(Action::CreateConversation(plan)) => create_conversations_outcome(
                    self.users,
                    self.conversations,
                    *login,
                    Ok(plan),
                ),
                Ok(_) => false,
                Err(e) => create_conversations_outcome(
                    self.users,
                    self.conversations,
                    *login,
                    Err(e),
                ),
            },
            self.operation == Operation::Create && self.target == Target::Messages ==> match r {
                Ok(Action::CreateMessages(rows)) => create_messages_outcome(
                    self.messages,
                    self.conversations,
                    *login,
                    Ok(rows),
                ),
                Ok(_) => false,
                Err(e) => create_messages_outcome(
                    self.messages,
                    self.conversations,
                    *login,
                    Err(e),
                ),
            },
            self.operation == Operation::Read && self.target == Target::Conversations
                && login.is_authenticated ==> (r matches Ok(
                Action::Fetch(Query::ConversationsOf { owner }),
            ) && owner == login.email),
            self.operation == Operation::Read && self.target == Target::Messages
                && login.is_authenticated ==> match first_conversation_id(self.conversations) {
                Err(e) => r matches Err(e2) && e2 == e,
                Ok(id) => r matches Ok(Action::Fetch(Query::MessagesIn { owner, conversation }))
                    && owner == login.email && conversation == id,
            },
            self.operation == Operation::Read && self.target == Target::Users
                && login.is_authenticated ==> match first_conversation_id(self.conversations) {
                Err(e) => r matches Err(e2) && e2 == e,
                Ok(id) => r matches Ok(Action::Fetch(Query::UsersIn { owner, conversation }))
                    && owner == login.email && conversation == id,
            },
    {
        match (self.operation, self.target) {
            (Operation::Verify, Target::Users) => match self.verify_users() {
                Ok(c) => Ok(Action::Verify(c)),
                Err(e) => Err(e),
            },
            (Operation::Create, Target::Users) => match self.create_users() {
                Ok(rows) => Ok(Action::CreateUsers(rows)),
                Err(e) => Err(e),
            },
            (Operation::Create, Target::Conversations) => match self.create_conversations(login) {
                Ok(plan) => Ok(Action::CreateConversation(plan)),
                Err(e) => Err(e),
            },
            (Operation::Create, Target::Messages) => match self.create_messages(login) {
                Ok(rows) => Ok(Action::CreateMessages(rows)),
                Err(e) => Err(e),
            },
            (Operation::Read, Target::Conversations) => match self.read_conversations(login) {
                Ok(q) => Ok(Action::Fetch(q)),
                Err(e) => Err(e),
            },
            (Operation::Read, Target::Messages) => match self.read_messages(login) {
                Ok(q) => Ok(Action::Fetch(q)),
                Err(e) => Err(e),
            },
            (Operation::Read, Target::Users) => match self.read_users(login) {
                Ok(q) => Ok(Action::Fetch(q)),
                Err(e) => Err(e),
            },
            (_, Target::Users) => Err(ApiError::InvalidRequest(Problem::Unsupported)),
            _ => {
                if !login.is_authenticated() {
                    Err(ApiError::Unauthorized)
                } else {
                    Err(ApiError::InvalidRequest(Problem::Unsupported))
                }
            },
        }
    }
}

impl Credentials {
    /// Finishes a verification against the credential stored for the
    /// email: where the password matches, the session becomes authenticated
    /// as that email; otherwise the result is `Unauthorized`, which does not
    /// say whether the email or the password was wrong, and the session is
    /// left as it was.
    pub fn complete(self, login: &mut Login, stored: Password) -> (r: Result<Response, ApiError>)
        ensures
            stored.accepts(encode_utf8(self.password@)) ==> (r matches Ok(resp)
                && resp.is_bare_success() && final(login).is_authenticated && final(login).email
                == self.email),
            !stored.accepts(encode_utf8(self.password@)) ==> (r matches Err(e) && e
                == ApiError::Unauthorized && *final(login) == *old(login)),
    {
        if stored.is_valid(self.password.as_str()) {
            login.authenticate(self.email);
            Ok(Response::success())
        } else {
            Err(ApiError::Unauthorized)
        }
    }
}

} // verus!
