use chat_core::error::{ApiError, Field, Problem};
use chat_core::model::{Conversation, Message, User};
use chat_core::request::{classify_function, parse_operation, parse_target, Action, Operation, Query, Request, Target};
use chat_core::session::Login;

fn user(email: Option<&str>, password: Option<&str>, key: Option<&[u8]>) -> User {
    User {
        email: email.map(|s| s.to_string()),
        password: password.map(|s| s.to_string()),
        public_key: key.map(|k| k.to_vec()),
    }
}

fn conversation(id: Option<i64>, name: Option<&[u8]>) -> Conversation {
    Conversation { id, name: name.map(|n| n.to_vec()) }
}

fn message(complete: bool) -> Message {
    Message {
        data: Some(b"hi".to_vec()),
        media_type: Some("text/plain".to_string()),
        timestamp: Some(1700000000),
        signature: if complete { Some(vec![1, 2, 3]) } else { None },
    }
}

fn logged_in(email: &str) -> Login {
    let mut login = Login::new();
    login.authenticate(email.to_string());
    login
}

fn request(function: &str) -> Request {
    Request::from_parts(function, None, None, None).unwrap()
}

#[test]
fn split_function_takes_first_two_words() {
    assert_eq!(
        Request::split_function("  CREATE\tUSERS extra words"),
        Some(("CREATE".to_string(), "USERS".to_string()))
    );
    assert_eq!(Request::split_function("READ"), None);
    assert_eq!(Request::split_function(""), None);
    assert_eq!(Request::split_function(" \n "), None);
}

#[test]
fn every_operation_and_target_pair_classifies() {
    let ops = [
        ("CREATE", Operation::Create),
        ("READ", Operation::Read),
        ("UPDATE", Operation::Update),
        ("DELETE", Operation::Delete),
        ("VERIFY", Operation::Verify),
    ];
    let targets = [
        ("CONVERSATIONS", Target::Conversations),
        ("MESSAGES", Target::Messages),
        ("USERS", Target::Users),
    ];
    for (ow, o) in ops.iter() {
        for (tw, t) in targets.iter() {
            let f = format!("{} {}", ow, tw);
            assert_eq!(classify_function(&f), Ok((*o, *t)));
        }
    }
}

#[test]
fn unknown_words_are_invalid_requests() {
    assert_eq!(
        classify_function("FETCH USERS"),
        Err(ApiError::InvalidRequest(Problem::UnknownOperation))
    );
    assert_eq!(
        classify_function("READ GROUPS"),
        Err(ApiError::InvalidRequest(Problem::UnknownTarget))
    );
    assert_eq!(
        classify_function("read users"),
        Err(ApiError::InvalidRequest(Problem::UnknownOperation))
    );
    assert_eq!(classify_function("READ"), Err(ApiError::InvalidRequest(Problem::BadFunction)));
    assert_eq!(parse_operation("VERIFY"), Some(Operation::Verify));
    assert_eq!(parse_operation("VERIFYX"), None);
    assert_eq!(parse_target("MESSAGES"), Some(Target::Messages));
    assert_eq!(parse_target(""), None);
}

#[test]
fn from_json_reads_function_and_lists() {
    let text = r#"{"function": "CREATE USERS",
        "users": [{"email": "a@b.c", "password": "pw", "public_key": "key"}],
        "conversations": [{"id": 7, "name": "chat"}]}"#;
    let r = Request::from_json(text).unwrap();
    assert_eq!(r.operation, Operation::Create);
    assert_eq!(r.target, Target::Users);
    assert_eq!(r.users, Some(vec![user(Some("a@b.c"), Some("pw"), Some(b"key"))]));
    assert_eq!(r.messages, None);
    assert_eq!(r.conversations, Some(vec![conversation(Some(7), Some(b"chat"))]));
}

#[test]
fn from_json_reads_messages() {
    let text = r#"{"function": "CREATE MESSAGES",
        "messages": [{"data": "hi", "media_type": "text/plain", "timestamp": 1700000000, "signature": "sig"}],
        "conversations": [{}]}"#;
    let r = Request::from_json(text).unwrap();
    let m = &r.messages.as_ref().unwrap()[0];
    assert_eq!(m.data, Some(b"hi".to_vec()));
    assert_eq!(m.media_type, Some("text/plain".to_string()));
    assert_eq!(m.timestamp, Some(1700000000));
    assert_eq!(m.signature, Some(b"sig".to_vec()));
    assert_eq!(r.conversations, Some(vec![conversation(None, None)]));
}

#[test]
fn from_json_refusals() {
    assert_eq!(Request::from_json("not json").unwrap_err(), ApiError::InvalidRequest(Problem::NotJson));
    assert_eq!(Request::from_json("[1]").unwrap_err(), ApiError::InvalidRequest(Problem::NotAnObject));
    assert_eq!(
        Request::from_json(r#"{"users": []}"#).unwrap_err(),
        ApiError::InvalidRequest(Problem::Missing(Field::Function))
    );
    assert_eq!(
        Request::from_json(r#"{"function": 3}"#).unwrap_err(),
        ApiError::InvalidRequest(Problem::WrongType(Field::Function))
    );
    assert_eq!(
        Request::from_json(r#"{"function": "PING USERS"}"#).unwrap_err(),
        ApiError::InvalidRequest(Problem::UnknownOperation)
    );
    assert_eq!(
        Request::from_json(r#"{"function": "READ USERS", "users": {}}"#).unwrap_err(),
        ApiError::InvalidRequest(Problem::WrongType(Field::Users))
    );
    assert_eq!(
        Request::from_json(r#"{"function": "READ USERS", "users": [{"email": 5}]}"#).unwrap_err(),
        ApiError::InvalidRequest(Problem::WrongType(Field::Email))
    );
    assert_eq!(
        Request::from_json(r#"{"function": "READ USERS", "conversations": [{"id": 1.5}]}"#).unwrap_err(),
        ApiError::InvalidRequest(Problem::WrongType(Field::Id))
    );
    assert_eq!(
        Request::from_json(r#"{"function": "READ USERS", "messages": ["x"]}"#).unwrap_err(),
        ApiError::InvalidRequest(Problem::NotAnObject)
    );
}

#[test]
fn parsing_twice_gives_equal_requests() {
    let text = r#"{"function": "CREATE CONVERSATIONS",
        "users": [{"email": "b@x.y"}], "conversations": [{"name": "room"}]}"#;
    let a = Request::from_json(text).unwrap();
    let b = Request::from_json(text).unwrap();
    assert_eq!(a, b);
    let c = Request::from_parts("READ USERS", Some(vec![user(Some("a"), None, None)]), None, None);
    let d = Request::from_parts("READ USERS", Some(vec![user(Some("a"), None, None)]), None, None);
    assert_eq!(c, d);
}

#[test]
fn verify_users_needs_email_and_password() {
    let r = Request::from_parts("VERIFY USERS", None, None, None).unwrap();
    assert_eq!(r.verify_users().err(), Some(ApiError::InvalidRequest(Problem::Missing(Field::Users))));
    let r = Request::from_parts("VERIFY USERS", Some(vec![]), None, None).unwrap();
    assert_eq!(r.verify_users().err(), Some(ApiError::InvalidRequest(Problem::Empty(Field::Users))));
    let r = Request::from_parts("VERIFY USERS", Some(vec![user(None, Some("p"), None)]), None, None).unwrap();
    assert_eq!(r.verify_users().err(), Some(ApiError::InvalidRequest(Problem::Missing(Field::Email))));
    let r = Request::from_parts("VERIFY USERS", Some(vec![user(Some("e"), None, None)]), None, None).unwrap();
    assert_eq!(r.verify_users().err(), Some(ApiError::InvalidRequest(Problem::Missing(Field::Password))));
    let r = Request::from_parts(
        "VERIFY USERS",
        Some(vec![user(Some("e"), Some("p"), None), user(None, None, None)]),
        None,
        None,
    )
    .unwrap();
    let c = r.verify_users().unwrap();
    assert_eq!(c.email, "e");
    assert_eq!(c.password, "p");
}

#[test]
fn create_users_without_public_key_is_refused() {
    let users = vec![
        user(Some("a@x.y"), Some("pw"), Some(b"k1")),
        user(Some("b@x.y"), Some("pw"), None),
    ];
    let r = Request::from_parts("CREATE USERS", Some(users), None, None).unwrap();
    assert_eq!(r.create_users().err(), Some(ApiError::InvalidRequest(Problem::Missing(Field::PublicKey))));
    let r = Request::from_parts("CREATE USERS", Some(vec![user(Some("a"), None, None)]), None, None).unwrap();
    assert_eq!(r.create_users().err(), Some(ApiError::InvalidRequest(Problem::Missing(Field::Password))));
    let r = Request::from_parts("CREATE USERS", Some(vec![]), None, None).unwrap();
    assert_eq!(r.create_users().err(), Some(ApiError::InvalidRequest(Problem::Empty(Field::Users))));
    let r = request("CREATE USERS");
    assert_eq!(r.create_users().err(), Some(ApiError::InvalidRequest(Problem::Missing(Field::Users))));
}

#[test]
fn create_users_makes_a_credential_per_user() {
    let users = vec![user(Some("a@x.y"), Some("pw"), Some(b"k1"))];
    let r = Request::from_parts("CREATE USERS", Some(users), None, None).unwrap();
    let rows = r.create_users().unwrap();
    assert_eq!(rows.len(), 1);
    assert_eq!(rows[0].email, "a@x.y");
    assert_eq!(rows[0].public_key, b"k1".to_vec());
    assert_eq!(rows[0].credential.salt.len(), 32);
    assert_eq!(rows[0].credential.hash.len(), 32);
    assert!(rows[0].credential.clone().is_valid("pw"));
}

#[test]
fn conversations_and_messages_need_a_session() {
    let anon = Login::new();
    let full = || {
        Request::from_parts(
            "CREATE CONVERSATIONS",
            Some(vec![user(Some("b@x.y"), None, None)]),
            Some(vec![message(true)]),
            Some(vec![conversation(Some(3), Some(b"room"))]),
        )
        .unwrap()
    };
    assert_eq!(full().create_conversations(&anon).err(), Some(ApiError::Unauthorized));
    assert_eq!(full().create_messages(&anon).err(), Some(ApiError::Unauthorized));
    assert_eq!(full().read_conversations(&anon).err(), Some(ApiError::Unauthorized));
    assert_eq!(full().read_messages(&anon).err(), Some(ApiError::Unauthorized));
    assert_eq!(full().read_users(&anon).err(), Some(ApiError::Unauthorized));
    assert_eq!(request("CREATE MESSAGES").create_messages(&anon).err(), Some(ApiError::Unauthorized));
    for f in ["CREATE CONVERSATIONS", "READ MESSAGES", "DELETE MESSAGES", "UPDATE CONVERSATIONS", "VERIFY MESSAGES"] {
        assert_eq!(request(f).dispatch(&anon).err(), Some(ApiError::Unauthorized));
    }
}

#[test]
fn create_conversation_plan_lists_caller_then_users() {
    let login = logged_in("me@x.y");
    let r = Request::from_parts(
        "CREATE CONVERSATIONS",
        Some(vec![user(Some("b@x.y"), None, None), user(Some("c@x.y"), None, None)]),
        None,
        Some(vec![conversation(None, Some(b"room"))]),
    )
    .unwrap();
    let plan = r.create_conversations(&login).unwrap();
    assert_eq!(plan.name, "room");
    assert_eq!(plan.members, vec!["me@x.y".to_string(), "b@x.y".to_string(), "c@x.y".to_string()]);
}

#[test]
fn create_conversation_refusals() {
    let login = logged_in("me@x.y");
    let r = Request::from_parts("CREATE CONVERSATIONS", None, None, Some(vec![conversation(None, Some(b"r"))])).unwrap();
    assert_eq!(r.create_conversations(&login).err(), Some(ApiError::InvalidRequest(Problem::Missing(Field::Users))));
    let r = Request::from_parts("CREATE CONVERSATIONS", Some(vec![]), None, None).unwrap();
    assert_eq!(
        r.create_conversations(&login).err(),
        Some(ApiError::InvalidRequest(Problem::Missing(Field::Conversations)))
    );
    let r = Request::from_parts("CREATE CONVERSATIONS", Some(vec![]), None, Some(vec![])).unwrap();
    assert_eq!(
        r.create_conversations(&login).err(),
        Some(ApiError::InvalidRequest(Problem::Empty(Field::Conversations)))
    );
    let r = Request::from_parts("CREATE CONVERSATIONS", Some(vec![]), None, Some(vec![conversation(Some(1), None)])).unwrap();
    assert_eq!(r.create_conversations(&login).err(), Some(ApiError::InvalidRequest(Problem::Missing(Field::Name))));
    let bad: &[u8] = &[0xff, 0xfe];
    let r = Request::from_parts("CREATE CONVERSATIONS", Some(vec![]), None, Some(vec![conversation(None, Some(bad))])).unwrap();
    assert_eq!(r.create_conversations(&login).err(), Some(ApiError::InvalidRequest(Problem::NotUtf8(Field::Name))));
    let r = Request::from_parts(
        "CREATE CONVERSATIONS",
        Some(vec![user(None, None, None)]),
        None,
        Some(vec![conversation(None, Some(b"r"))]),
    )
    .unwrap();
    assert_eq!(r.create_conversations(&login).err(), Some(ApiError::InvalidRequest(Problem::Missing(Field::Email))));
}

#[test]
fn create_messages_rows_and_refusals() {
    let login = logged_in("me@x.y");
    let r = Request::from_parts("CREATE MESSAGES", None, Some(vec![message(true), message(true)]), Some(vec![conversation(None, None)])).unwrap();
    let rows = r.create_messages(&login).unwrap();
    assert_eq!(rows.len(), 2);
    assert_eq!(rows[0].author, "me@x.y");
    assert_eq!(rows[0].data, b"hi".to_vec());
    assert_eq!(rows[0].media_type, "text/plain");
    assert_eq!(rows[0].timestamp, 1700000000);
    assert_eq!(rows[1].signature, vec![1, 2, 3]);
    let r = Request::from_parts("CREATE MESSAGES", None, Some(vec![message(true), message(false)]), Some(vec![conversation(None, None)])).unwrap();
    assert_eq!(r.create_messages(&login).err(), Some(ApiError::InvalidRequest(Problem::Missing(Field::Signature))));
    let r = Request::from_parts("CREATE MESSAGES", None, None, Some(vec![])).unwrap();
    assert_eq!(r.create_messages(&login).err(), Some(ApiError::InvalidRequest(Problem::Missing(Field::Messages))));
    let r = Request::from_parts("CREATE MESSAGES", None, Some(vec![]), None).unwrap();
    assert_eq!(r.create_messages(&login).err(), Some(ApiError::InvalidRequest(Problem::Missing(Field::Conversations))));
    let r = Request::from_parts("CREATE MESSAGES", None, Some(vec![]), Some(vec![])).unwrap();
    assert_eq!(r.create_messages(&login).err(), Some(ApiError::InvalidRequest(Problem::Empty(Field::Conversations))));
}

#[test]
fn reads_issue_one_query() {
    let login = logged_in("me@x.y");
    match request("READ CONVERSATIONS").read_conversations(&login).unwrap() {
        Query::ConversationsOf { owner } => assert_eq!(owner, "me@x.y"),
        _ => panic!("wrong query"),
    }
    let with_id = || Request::from_parts("READ MESSAGES", None, None, Some(vec![conversation(Some(42), None)])).unwrap();
    match with_id().read_messages(&login).unwrap() {
        Query::MessagesIn { owner, conversation } => {
            assert_eq!(owner, "me@x.y");
            assert_eq!(conversation, 42);
        }
        _ => panic!("wrong query"),
    }
    match with_id().read_users(&login).unwrap() {
        Query::UsersIn { owner, conversation } => {
            assert_eq!(owner, "me@x.y");
            assert_eq!(conversation, 42);
        }
        _ => panic!("wrong query"),
    }
    let no_id = Request::from_parts("READ USERS", None, None, Some(vec![conversation(None, None)])).unwrap();
    assert_eq!(no_id.read_users(&login).err(), Some(ApiError::InvalidRequest(Problem::Missing(Field::Id))));
    assert_eq!(
        request("READ MESSAGES").read_messages(&login).err(),
        Some(ApiError::InvalidRequest(Problem::Missing(Field::Conversations)))
    );
}

#[test]
fn dispatch_routes_and_refuses_unsupported() {
    let login = logged_in("me@x.y");
    assert!(matches!(request("READ CONVERSATIONS").dispatch(&login), Ok(Action::Fetch(_))));
    assert_eq!(
        request("DELETE USERS").dispatch(&Login::new()).err(),
        Some(ApiError::InvalidRequest(Problem::Unsupported))
    );
    assert_eq!(
        request("UPDATE MESSAGES").dispatch(&login).err(),
        Some(ApiError::InvalidRequest(Problem::Unsupported))
    );
    let r = Request::from_parts("VERIFY USERS", Some(vec![user(Some("e"), Some("p"), None)]), None, None).unwrap();
    assert!(matches!(r.dispatch(&Login::new()), Ok(Action::Verify(_))));
}

#[test]
fn from_json_decodes_arrays_element_by_element() {
    let text = r#"{"function": "CREATE USERS",
        "users": [{"email": "a@x.y"}, {"password": "p", "public_key": "k"}, {}]}"#;
    let r = Request::from_json(text).unwrap();
    assert_eq!(
        r.users,
        Some(vec![
            user(Some("a@x.y"), None, None),
            user(None, Some("p"), Some(b"k")),
            user(None, None, None),
        ])
    );
}

#[test]
fn from_json_reports_first_failing_list() {
    let text = r#"{"function": "READ USERS",
        "users": [{"email": "a"}],
        "messages": [{"data": "d"}, {"timestamp": "late"}],
        "conversations": [{"id": "x"}]}"#;
    assert_eq!(
        Request::from_json(text).unwrap_err(),
        ApiError::InvalidRequest(Problem::WrongType(Field::Timestamp))
    );
    let text = r#"{"function": "READ USERS", "users": [{"email": "a"}], "messages": "none"}"#;
    assert_eq!(
        Request::from_json(text).unwrap_err(),
        ApiError::InvalidRequest(Problem::WrongType(Field::Messages))
    );
    let text = r#"{"function": "READ USERS", "users": [{"email": 1}, {"email": 2}]}"#;
    assert_eq!(
        Request::from_json(text).unwrap_err(),
        ApiError::InvalidRequest(Problem::WrongType(Field::Email))
    );
}

#[test]
fn dispatch_carries_handler_results() {
    let login = logged_in("me@x.y");
    let r = Request::from_parts(
        "CREATE MESSAGES",
        None,
        Some(vec![message(true)]),
        Some(vec![conversation(None, None)]),
    )
    .unwrap();
    match r.dispatch(&login) {
        Ok(Action::CreateMessages(rows)) => {
            assert_eq!(rows.len(), 1);
            assert_eq!(rows[0].author, "me@x.y");
        }
        _ => panic!("wrong action"),
    }
    let r = Request::from_parts("CREATE USERS", Some(vec![user(Some("a"), Some("p"), None)]), None, None).unwrap();
    assert_eq!(r.dispatch(&login).err(), Some(ApiError::InvalidRequest(Problem::Missing(Field::PublicKey))));
    let r = Request::from_parts("READ USERS", None, None, Some(vec![conversation(Some(9), None)])).unwrap();
    match r.dispatch(&login) {
        Ok(Action::Fetch(Query::UsersIn { owner, conversation })) => {
            assert_eq!(owner, "me@x.y");
            assert_eq!(conversation, 9);
        }
        _ => panic!("wrong action"),
    }
}

#[test]
fn null_lists_are_refused() {
    let cases = [
        (r#"{"function": "READ USERS", "users": null}"#, Field::Users),
        (r#"{"function": "READ USERS", "messages": null}"#, Field::Messages),
        (r#"{"function": "READ USERS", "conversations": null}"#, Field::Conversations),
    ];
    for (text, field) in cases.iter() {
        assert_eq!(
            Request::from_json(text).unwrap_err(),
            ApiError::InvalidRequest(Problem::WrongType(*field))
        );
    }
    let r = Request::from_json(r#"{"function": "READ USERS"}"#).unwrap();
    assert_eq!(r.users, None);
    assert_eq!(r.messages, None);
    assert_eq!(r.conversations, None);
}
