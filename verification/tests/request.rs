use agent_session::error::ProtocolError;
use agent_session::json::{Json, Number};
use agent_session::message::{NewMessage, RunAgentBody};
use agent_session::part::Parts;
use agent_session::request::{build_choice_request, build_run_request, run_http_request};
use agent_session::response::{extract_text, parse_run_response};
use agent_session::session::{
    create_request, CreateSession, CreateSessionResponse, HttpRequest, Method, Reply,
    SessionManager,
};

fn s(text: &str) -> String {
    text.to_string()
}

fn session(id: &str) -> CreateSessionResponse {
    CreateSessionResponse {
        id: s(id),
        app_name: s("demo"),
        user_id: s("u1"),
        last_update_time: Number::Int(0),
    }
}

fn expected(text: &str) -> RunAgentBody {
    RunAgentBody {
        app_name: s("demo"),
        user_id: s("u1"),
        session_id: s("s1"),
        new_message: NewMessage { parts: vec![Parts::Text { text: s(text) }], role: s("user") },
        streaming: false,
    }
}

#[test]
fn an_empty_session_is_invalid() {
    assert_eq!(build_run_request(&session(""), "hi"), Err(ProtocolError::InvalidSession));
    assert_eq!(
        build_run_request(&CreateSessionResponse::default(), "hi"),
        Err(ProtocolError::InvalidSession)
    );
    assert_eq!(build_run_request(&session(""), ""), Err(ProtocolError::InvalidSession));
}

#[test]
fn a_request_carries_one_text_part_of_the_user() {
    assert_eq!(build_run_request(&session("s1"), "hi"), Ok(expected("hi")));
    assert_eq!(build_run_request(&session("s1"), ""), Ok(expected("")));
    let built = build_run_request(&session("s1"), "start").expect("a request");
    assert_eq!(built.new_message.parts, vec![Parts::Text { text: s("start") }]);
    assert_eq!(built.new_message.role, "user");
    assert_eq!(built.session_id, "s1");
    assert!(!built.streaming);
    assert!(built.is_valid());
}

#[test]
fn building_twice_gives_the_same_request() {
    assert_eq!(build_run_request(&session("s1"), "again"), build_run_request(&session("s1"), "again"));
}

#[test]
fn validity_asks_for_all_four_texts() {
    assert!(expected("x").is_valid());
    let mut no_app = expected("x");
    no_app.app_name = s("");
    assert!(!no_app.is_valid());
    let mut no_user = expected("x");
    no_user.user_id = s("");
    assert!(!no_user.is_valid());
    let mut no_session = expected("x");
    no_session.session_id = s("");
    assert!(!no_session.is_valid());
    let mut no_role = expected("x");
    no_role.new_message.role = s("");
    assert!(!no_role.is_valid());
    let nameless = CreateSessionResponse {
        id: s("s1"),
        app_name: s(""),
        user_id: s("u1"),
        last_update_time: Number::Int(0),
    };
    assert!(!build_run_request(&nameless, "x").expect("a request").is_valid());
}

#[test]
fn the_wire_form_uses_camel_case_names() {
    let wire = expected("hi").encode();
    assert_eq!(
        wire,
        Json::Object(vec![
            (s("appName"), Json::Str(s("demo"))),
            (s("userId"), Json::Str(s("u1"))),
            (s("sessionId"), Json::Str(s("s1"))),
            (
                s("newMessage"),
                Json::Object(vec![
                    (
                        s("parts"),
                        Json::Array(vec![Json::Object(vec![(s("text"), Json::Str(s("hi")))])])
                    ),
                    (s("role"), Json::Str(s("user"))),
                ])
            ),
            (s("streaming"), Json::Bool(false)),
        ])
    );
    assert_eq!(RunAgentBody::decode(&wire), Ok(expected("hi")));
    let snake = Json::parse(
        r#"{"app_name":"demo","user_id":"u1","session_id":"s1",
            "new_message":{"parts":[{"text":"hi"}],"role":"user"},"streaming":false}"#,
    )
    .expect("valid JSON");
    assert_eq!(RunAgentBody::decode(&snake), Ok(expected("hi")));
}

#[test]
fn the_run_request_is_posted_under_run() {
    let body = expected("hi");
    assert_eq!(
        run_http_request("http://127.0.0.1:8000", &body),
        HttpRequest {
            method: Method::Post,
            url: s("http://127.0.0.1:8000/run"),
            body: Some(body.encode()),
        }
    );
}

#[test]
fn a_fragment_is_submitted_by_its_index() {
    let fragments = vec![s("story"), s("choice a"), s("choice b")];
    assert_eq!(build_choice_request(&session("s1"), &fragments, 1), Ok(Some(expected("choice a"))));
    assert_eq!(build_choice_request(&session("s1"), &fragments, 2), Ok(Some(expected("choice b"))));
    assert_eq!(build_choice_request(&session("s1"), &fragments, 3), Ok(None));
    assert_eq!(build_choice_request(&session("s1"), &vec![], 0), Ok(None));
    assert_eq!(build_choice_request(&session(""), &fragments, 0), Err(ProtocolError::InvalidSession));
    assert_eq!(build_choice_request(&session(""), &fragments, 9), Ok(None));
}

#[test]
fn from_create_to_extracted_text() {
    let who = CreateSession { app_name: s("demo"), user_id: s("u1") };
    let create = create_request("http://host", &who);
    assert_eq!(create.url, "http://host/apps/demo/users/u1/sessions");
    let mut manager = SessionManager::new();
    let created = manager
        .finish_create(Reply::Answered {
            status: 200,
            body: s(r#"{"id":"s1","app_name":"demo","user_id":"u1","last_update_time":1000.0}"#),
        })
        .expect("a session");
    assert_eq!(created.id, "s1");
    assert_eq!(created.app_name, "demo");
    assert_eq!(created.user_id, "u1");
    assert_eq!(created.last_update_time, Number::Decimal(s("1000.0")));
    let request = build_run_request(manager.current(), "start").expect("a request");
    assert_eq!(request.new_message.parts, vec![Parts::Text { text: s("start") }]);
    assert_eq!(request.session_id, "s1");
    let reply = r#"[{"content":{"parts":[{"text":"Once upon a time"}],"role":"model"},"turn_complete":true}]"#;
    let events = parse_run_response(reply).expect("one event");
    assert_eq!(events[0].turn_complete, Some(true));
    assert_eq!(events[0].content.role, "model");
    assert_eq!(extract_text(&events), vec![s("Once upon a time")]);
}
