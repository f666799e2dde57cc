use agent_session::error::{DecodeError, ProtocolError};
use agent_session::json::{Json, Number};
use agent_session::session::{
    create_request, session_from_reply, status_is_success, terminate_request, CreateSession,
    CreateSessionResponse, HttpRequest, Method, Reply, SessionManager,
};

fn s(text: &str) -> String {
    text.to_string()
}

fn demo() -> CreateSessionResponse {
    CreateSessionResponse {
        id: s("s1"),
        app_name: s("demo"),
        user_id: s("u1"),
        last_update_time: Number::Decimal(s("1000.0")),
    }
}

fn answered(status: u16, body: &str) -> Reply {
    Reply::Answered { status, body: s(body) }
}

const DEMO_BODY: &str = r#"{"id":"s1","appName":"demo","userId":"u1","lastUpdateTime":1000.0}"#;

fn active_manager() -> SessionManager {
    let mut manager = SessionManager::new();
    manager.finish_create(answered(200, DEMO_BODY)).expect("a session");
    manager
}

#[test]
fn a_new_manager_has_no_session() {
    let manager = SessionManager::new();
    assert!(!manager.is_active());
    assert_eq!(manager.current(), &CreateSessionResponse::default());
    assert_eq!(manager.current().id, "");
}

#[test]
fn the_empty_session_is_not_active() {
    let empty = CreateSessionResponse::default();
    assert_eq!(empty.id, "");
    assert_eq!(empty.app_name, "");
    assert_eq!(empty.user_id, "");
    assert_eq!(empty.last_update_time, Number::Int(0));
    assert!(!empty.is_active());
    assert!(demo().is_active());
}

#[test]
fn a_successful_create_stores_the_session() {
    let mut manager = SessionManager::new();
    let created = manager.finish_create(answered(200, DEMO_BODY));
    assert_eq!(created, Ok(demo()));
    assert!(manager.is_active());
    assert_eq!(manager.current(), &demo());
    assert!(!manager.current().id.is_empty());
}

#[test]
fn a_session_in_snake_case_is_read_too() {
    let mut manager = SessionManager::new();
    let body = r#"{"id":"s1","app_name":"demo","user_id":"u1","last_update_time":1000.0,"state":{},"events":[]}"#;
    assert_eq!(manager.finish_create(answered(201, body)), Ok(demo()));
    assert_eq!(manager.current(), &demo());
}

#[test]
fn a_failed_create_leaves_no_session() {
    let mut manager = SessionManager::new();
    assert_eq!(
        manager.finish_create(answered(500, DEMO_BODY)),
        Err(ProtocolError::SessionCreateError { status: 500 })
    );
    assert!(!manager.is_active());
    assert_eq!(manager.current(), &CreateSessionResponse::default());
    assert_eq!(
        manager.finish_create(answered(404, "")),
        Err(ProtocolError::SessionCreateError { status: 404 })
    );
    assert_eq!(
        manager.finish_create(answered(199, DEMO_BODY)),
        Err(ProtocolError::SessionCreateError { status: 199 })
    );
    assert_eq!(
        manager.finish_create(answered(300, DEMO_BODY)),
        Err(ProtocolError::SessionCreateError { status: 300 })
    );
    assert_eq!(
        manager.finish_create(Reply::Failed { message: s("connection refused") }),
        Err(ProtocolError::TransportError { message: s("connection refused") })
    );
    assert!(!manager.is_active());
    assert_eq!(manager.current(), &CreateSessionResponse::default());
}

#[test]
fn a_malformed_session_leaves_no_session() {
    let mut manager = SessionManager::new();
    assert_eq!(
        manager.finish_create(answered(200, "not json")),
        Err(ProtocolError::MalformedResponse { cause: DecodeError::Syntax })
    );
    assert_eq!(
        manager.finish_create(answered(200, "[]")),
        Err(ProtocolError::MalformedResponse { cause: DecodeError::NotAnObject })
    );
    assert_eq!(
        manager.finish_create(answered(200, r#"{"id":"s1"}"#)),
        Err(ProtocolError::MalformedResponse { cause: DecodeError::MissingField })
    );
    assert_eq!(
        manager.finish_create(answered(200, r#"{"id":7,"appName":"a","userId":"u","lastUpdateTime":1}"#)),
        Err(ProtocolError::MalformedResponse { cause: DecodeError::WrongType })
    );
    assert_eq!(
        manager.finish_create(answered(200, r#"{"id":"","appName":"a","userId":"u","lastUpdateTime":1}"#)),
        Err(ProtocolError::MalformedResponse { cause: DecodeError::EmptyIdentifier })
    );
    assert!(!manager.is_active());
    assert_eq!(manager.current(), &CreateSessionResponse::default());
}

#[test]
fn a_create_after_a_failure_can_succeed() {
    let mut manager = SessionManager::new();
    assert!(manager.finish_create(answered(503, "")).is_err());
    assert_eq!(manager.finish_create(answered(200, DEMO_BODY)), Ok(demo()));
    assert!(manager.is_active());
}

#[test]
fn a_successful_terminate_leaves_no_session() {
    let mut manager = active_manager();
    assert_eq!(manager.finish_terminate(answered(200, "")), Ok(()));
    assert!(!manager.is_active());
    assert_eq!(manager.current(), &CreateSessionResponse::default());
    assert_eq!(manager.current().id, "");
    let mut again = active_manager();
    assert_eq!(again.finish_terminate(answered(204, "ignored")), Ok(()));
    assert!(!again.is_active());
}

#[test]
fn a_failed_terminate_leaves_the_session_untouched() {
    let mut manager = active_manager();
    assert_eq!(
        manager.finish_terminate(answered(500, "")),
        Err(ProtocolError::SessionTerminateError { status: 500 })
    );
    assert!(manager.is_active());
    assert_eq!(manager.current(), &demo());
    assert_eq!(
        manager.finish_terminate(Reply::Failed { message: s("timeout") }),
        Err(ProtocolError::TransportError { message: s("timeout") })
    );
    assert_eq!(manager.current(), &demo());
    assert_eq!(manager.finish_terminate(answered(200, "")), Ok(()));
    assert!(!manager.is_active());
}

#[test]
fn the_create_request() {
    let who = CreateSession { app_name: s("multi_tool_agent"), user_id: s("user_1") };
    assert_eq!(
        create_request("http://127.0.0.1:8000", &who),
        HttpRequest {
            method: Method::Post,
            url: s("http://127.0.0.1:8000/apps/multi_tool_agent/users/user_1/sessions"),
            body: None,
        }
    );
}

#[test]
fn the_terminate_request() {
    assert_eq!(
        terminate_request(&demo(), "http://127.0.0.1:8000"),
        Ok(HttpRequest {
            method: Method::Delete,
            url: s("http://127.0.0.1:8000/apps/demo/users/u1/sessions/s1"),
            body: None,
        })
    );
    assert_eq!(active_manager().terminate_request("https://h"), terminate_request(&demo(), "https://h"));
}

#[test]
fn a_resumed_manager_tracks_the_given_session() {
    let mut manager = SessionManager::resume(demo());
    assert!(manager.is_active());
    assert_eq!(manager.current(), &demo());
    assert_eq!(manager.finish_terminate(answered(200, "")), Ok(()));
    assert!(!manager.is_active());
    assert!(!SessionManager::resume(CreateSessionResponse::default()).is_active());
    let who = CreateSession { app_name: s("a"), user_id: s("u") };
    assert_eq!(SessionManager::new().create_request("http://h", &who), create_request("http://h", &who));
}

#[test]
fn no_terminate_request_without_a_session() {
    assert_eq!(
        terminate_request(&CreateSessionResponse::default(), "http://h"),
        Err(ProtocolError::InvalidSession)
    );
    assert_eq!(SessionManager::new().terminate_request("http://h"), Err(ProtocolError::InvalidSession));
}

#[test]
fn success_is_from_200_to_299() {
    assert!(!status_is_success(0));
    assert!(!status_is_success(199));
    assert!(status_is_success(200));
    assert!(status_is_success(204));
    assert!(status_is_success(299));
    assert!(!status_is_success(300));
    assert!(!status_is_success(404));
    assert!(!status_is_success(u16::MAX));
}

#[test]
fn the_body_is_looked_at_only_on_success() {
    assert_eq!(
        session_from_reply(500, Err(DecodeError::Syntax)),
        Err(ProtocolError::SessionCreateError { status: 500 })
    );
    assert_eq!(
        session_from_reply(200, Err(DecodeError::Syntax)),
        Err(ProtocolError::MalformedResponse { cause: DecodeError::Syntax })
    );
    assert_eq!(session_from_reply(200, Json::parse(DEMO_BODY)), Ok(demo()));
}

#[test]
fn a_session_is_read_back_from_its_wire_form() {
    let wire = demo().encode();
    assert_eq!(
        wire,
        Json::Object(vec![
            (s("id"), Json::Str(s("s1"))),
            (s("appName"), Json::Str(s("demo"))),
            (s("userId"), Json::Str(s("u1"))),
            (s("lastUpdateTime"), Json::Number(Number::Decimal(s("1000.0")))),
        ])
    );
    assert_eq!(CreateSessionResponse::decode(&wire), Ok(demo()));
    assert_eq!(CreateSessionResponse::accept(&wire), Ok(demo()));
    assert_eq!(
        CreateSessionResponse::decode(&CreateSessionResponse::default().encode()),
        Ok(CreateSessionResponse::default())
    );
    assert_eq!(
        CreateSessionResponse::accept(&CreateSessionResponse::default().encode()),
        Err(ProtocolError::MalformedResponse { cause: DecodeError::EmptyIdentifier })
    );
}
