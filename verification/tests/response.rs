use agent_session::error::{DecodeError, ProtocolError};
use agent_session::event::AgentResponse;
use agent_session::json::{Json, Number};
use agent_session::message::NewMessage;
use agent_session::part::{PartKind, Parts};
use agent_session::response::{
    aggregate, decode_run_response, extract_errors, extract_parts, extract_text, extract_with,
    parse_run_response, EventError,
};

fn s(text: &str) -> String {
    text.to_string()
}

fn event(parts: Vec<Parts>) -> AgentResponse {
    AgentResponse {
        content: NewMessage { parts, role: s("model") },
        grounding_metadata: None,
        partial: None,
        turn_complete: None,
        error_code: None,
        error_message: None,
        interrupted: None,
        custom_metadata: None,
        invocation_id: None,
        author: None,
        actions: None,
        long_running_tool_ids: None,
        branch: None,
        id: None,
        timestamp: None,
    }
}

fn malformed(cause: DecodeError) -> ProtocolError {
    ProtocolError::MalformedResponse { cause }
}

#[test]
fn texts_come_in_the_order_of_events_and_parts() {
    let events = vec![
        event(vec![Parts::Text { text: s("a") }, Parts::Thought { thought: true }]),
        event(vec![Parts::Text { text: s("b") }]),
    ];
    assert_eq!(extract_text(&events), vec![s("a"), s("b")]);
}

#[test]
fn texts_are_not_sorted_or_merged() {
    let events = vec![
        event(vec![Parts::Text { text: s("z") }, Parts::Text { text: s("a") }]),
        event(vec![]),
        event(vec![
            Parts::InlineData { data: s("AA"), mime_type: s("m") },
            Parts::Text { text: s("z") },
            Parts::FunctionCall { id: s("1"), name: s("f"), args: Json::Null },
            Parts::Text { text: s("") },
        ]),
    ];
    assert_eq!(extract_text(&events), vec![s("z"), s("a"), s("z"), s("")]);
}

#[test]
fn no_fragment_one_fragment_many_fragments() {
    assert_eq!(extract_text(&vec![]), Vec::<String>::new());
    assert_eq!(extract_text(&vec![event(vec![Parts::Thought { thought: false }])]), Vec::<String>::new());
    assert_eq!(extract_text(&vec![event(vec![Parts::Text { text: s("one") }])]), vec![s("one")]);
    let many: Vec<AgentResponse> =
        (0..5).map(|i| event(vec![Parts::Text { text: format!("t{}", i) }])).collect();
    assert_eq!(extract_text(&many), vec![s("t0"), s("t1"), s("t2"), s("t3"), s("t4")]);
}

#[test]
fn parts_of_one_kind_keep_the_same_order() {
    let call = |id: &str| Parts::FunctionCall { id: s(id), name: s("f"), args: Json::Null };
    let events = vec![
        event(vec![call("1"), Parts::Text { text: s("a") }, call("2")]),
        event(vec![Parts::Thought { thought: true }]),
        event(vec![Parts::Text { text: s("b") }, call("3")]),
    ];
    assert_eq!(extract_parts(&events, PartKind::FunctionCall), vec![call("1"), call("2"), call("3")]);
    assert_eq!(
        extract_parts(&events, PartKind::Text),
        vec![Parts::Text { text: s("a") }, Parts::Text { text: s("b") }]
    );
    assert_eq!(extract_parts(&events, PartKind::Thought), vec![Parts::Thought { thought: true }]);
    assert_eq!(extract_parts(&events, PartKind::VideoMetadata), Vec::<Parts>::new());
}

#[test]
fn texts_are_the_texts_of_the_text_parts() {
    let events = vec![
        event(vec![Parts::Text { text: s("a") }, Parts::Thought { thought: true }]),
        event(vec![Parts::Text { text: s("b") }]),
    ];
    let from_parts: Vec<String> =
        extract_parts(&events, PartKind::Text).iter().map(|p| p.to_text()).collect();
    assert_eq!(extract_text(&events), from_parts);
}

#[test]
fn an_error_and_a_text_are_both_kept() {
    let body = r#"[
        {"content": {"parts": [], "role": "model"}, "error_code": "RATE_LIMIT"},
        {"content": {"parts": [{"text": "ok"}], "role": "model"}}
    ]"#;
    let events = parse_run_response(body).expect("a batch of two events");
    assert_eq!(events.len(), 2);
    assert_eq!(events[0].error_code, Some(s("RATE_LIMIT")));
    assert_eq!(events[0].error_message, None);
    assert_eq!(extract_text(&events), vec![s("ok")]);
    assert_eq!(
        extract_errors(&events),
        vec![EventError { index: 0, code: Some(s("RATE_LIMIT")), message: None }]
    );
    let both = aggregate(&events);
    assert_eq!(both.texts, vec![s("ok")]);
    assert_eq!(both.errors, vec![EventError { index: 0, code: Some(s("RATE_LIMIT")), message: None }]);
}

#[test]
fn an_event_with_an_error_keeps_its_own_text() {
    let body = r#"[
        {"content": {"parts": [{"text": "partial"}], "role": "model"},
         "errorCode": "INTERNAL", "errorMessage": "gave up"},
        {"content": {"parts": [{"text": "next"}], "role": "model"}},
        {"content": {"parts": [], "role": "model"}, "errorMessage": "only a message"}
    ]"#;
    let events = parse_run_response(body).expect("a batch of three events");
    let both = aggregate(&events);
    assert_eq!(both.texts, vec![s("partial"), s("next")]);
    assert_eq!(
        both.errors,
        vec![
            EventError { index: 0, code: Some(s("INTERNAL")), message: Some(s("gave up")) },
            EventError { index: 2, code: None, message: Some(s("only a message")) },
        ]
    );
}

#[test]
fn a_batch_without_errors_has_none() {
    let events = vec![event(vec![Parts::Text { text: s("a") }])];
    assert_eq!(extract_errors(&events), Vec::<EventError>::new());
    assert_eq!(extract_errors(&vec![]), Vec::<EventError>::new());
}

#[test]
fn a_body_that_is_no_json_is_malformed() {
    assert_eq!(parse_run_response("{not an array}"), Err(malformed(DecodeError::Syntax)));
    assert_eq!(parse_run_response(""), Err(malformed(DecodeError::Syntax)));
}

#[test]
fn a_body_that_is_no_array_is_malformed() {
    assert_eq!(parse_run_response(r#"{"content": {}}"#), Err(malformed(DecodeError::NotAnArray)));
    assert_eq!(parse_run_response("null"), Err(malformed(DecodeError::NotAnArray)));
    assert_eq!(parse_run_response("\"text\""), Err(malformed(DecodeError::NotAnArray)));
}

#[test]
fn an_item_that_is_no_event_is_malformed() {
    assert_eq!(parse_run_response("[1]"), Err(malformed(DecodeError::NotAnObject)));
    assert_eq!(parse_run_response("[{}]"), Err(malformed(DecodeError::MissingField)));
    assert_eq!(
        parse_run_response(r#"[{"content": {"parts": [], "role": "m"}}, {"content": 3}]"#),
        Err(malformed(DecodeError::NotAnObject))
    );
    assert_eq!(
        parse_run_response(r#"[{"content": {"parts": {}, "role": "m"}}]"#),
        Err(malformed(DecodeError::NotAnArray))
    );
    assert_eq!(
        parse_run_response(r#"[{"content": {"parts": []}}]"#),
        Err(malformed(DecodeError::MissingField))
    );
    assert_eq!(
        parse_run_response(r#"[{"content": {"parts": [], "role": "m"}, "partial": "yes"}]"#),
        Err(malformed(DecodeError::WrongType))
    );
}

#[test]
fn an_unrecognized_part_fails_the_whole_response() {
    let body = r#"[{"content": {"parts": [{"text": "a"}, {"unknown": 1}], "role": "model"}}]"#;
    assert_eq!(parse_run_response(body), Err(malformed(DecodeError::UnrecognizedPart)));
}

#[test]
fn the_first_failure_is_the_cause() {
    let body = r#"[
        {"content": {"parts": [{"nothing": 1}], "role": "model"}},
        {"content": 5}
    ]"#;
    assert_eq!(parse_run_response(body), Err(malformed(DecodeError::UnrecognizedPart)));
}

#[test]
fn an_empty_batch_is_a_batch() {
    assert_eq!(parse_run_response("[]"), Ok(vec![]));
}

#[test]
fn decoding_a_value_agrees_with_parsing_its_text() {
    let text = r#"[{"content": {"parts": [{"thought": true}], "role": "model"}, "turnComplete": true}]"#;
    let value = Json::parse(text).expect("valid JSON");
    assert_eq!(decode_run_response(&value), parse_run_response(text));
    assert_eq!(decode_run_response(&Json::Null), Err(malformed(DecodeError::NotAnArray)));
}

#[test]
fn optional_fields_of_an_event() {
    let body = r#"[{
        "content": {"parts": [{"text": "hi"}], "role": "model"},
        "partial": false,
        "turnComplete": true,
        "interrupted": null,
        "customMetadata": {"k": [1]},
        "invocationId": "inv-1",
        "author": "root_agent",
        "longRunningToolIds": ["t1", "t2"],
        "branch": "main",
        "id": "e1",
        "timestamp": 1700000000.25,
        "somethingNew": 1
    }]"#;
    let events = parse_run_response(body).expect("one event");
    let mut expected = event(vec![Parts::Text { text: s("hi") }]);
    expected.partial = Some(false);
    expected.turn_complete = Some(true);
    expected.custom_metadata = Some(Json::Object(vec![(
        s("k"),
        Json::Array(vec![Json::Number(Number::Int(1))]),
    )]));
    expected.invocation_id = Some(s("inv-1"));
    expected.author = Some(s("root_agent"));
    expected.long_running_tool_ids = Some(vec![s("t1"), s("t2")]);
    expected.branch = Some(s("main"));
    expected.id = Some(s("e1"));
    expected.timestamp = Some(Number::Decimal(s("1700000000.25")));
    assert_eq!(events, vec![expected]);
}

#[test]
fn snake_case_fields_of_an_event() {
    let body = r#"[{
        "content": {"parts": [{"text": "hi"}], "role": "model"},
        "turn_complete": true,
        "error_code": "E",
        "invocation_id": "inv",
        "long_running_tool_ids": []
    }]"#;
    let events = parse_run_response(body).expect("one event");
    let mut expected = event(vec![Parts::Text { text: s("hi") }]);
    expected.turn_complete = Some(true);
    expected.error_code = Some(s("E"));
    expected.invocation_id = Some(s("inv"));
    expected.long_running_tool_ids = Some(vec![]);
    assert_eq!(events, vec![expected]);
}

#[test]
fn an_event_is_read_back_from_its_wire_form() {
    let mut sent = event(vec![Parts::Text { text: s("hi") }, Parts::Thought { thought: true }]);
    sent.turn_complete = Some(true);
    sent.error_message = Some(s("m"));
    sent.timestamp = Some(Number::Int(12));
    sent.long_running_tool_ids = Some(vec![s("a")]);
    let wire = sent.encode();
    assert_eq!(AgentResponse::decode(&wire), Ok(sent));
    assert_eq!(Json::find(wire.as_object().expect("an object"), "turnComplete"), Some(&Json::Bool(true)));
    assert_eq!(Json::find(wire.as_object().expect("an object"), "partial"), None);
}

#[test]
fn a_message_is_read_back_from_its_wire_form() {
    let message = NewMessage {
        parts: vec![Parts::Text { text: s("a") }, Parts::InlineData { data: s("d"), mime_type: s("m") }],
        role: s("user"),
    };
    assert_eq!(
        message.encode(),
        Json::Object(vec![
            (
                s("parts"),
                Json::Array(vec![
                    Json::Object(vec![(s("text"), Json::Str(s("a")))]),
                    Json::Object(vec![
                        (s("data"), Json::Str(s("d"))),
                        (s("mimeType"), Json::Str(s("m"))),
                    ]),
                ])
            ),
            (s("role"), Json::Str(s("user"))),
        ])
    );
    assert_eq!(NewMessage::decode(&message.encode()), Ok(message));
    assert_eq!(NewMessage::decode(&Json::Array(vec![])), Err(DecodeError::NotAnObject));
}

#[test]
fn a_caller_draws_what_it_chooses() {
    let call = |id: &str, name: &str| Parts::FunctionCall { id: s(id), name: s(name), args: Json::Null };
    let events = vec![
        event(vec![call("1", "lookup"), Parts::Text { text: s("a") }, call("2", "book")]),
        event(vec![]),
        event(vec![Parts::Text { text: s("b") }, call("3", "lookup")]),
    ];
    let names = extract_with(&events, |p: &Parts| match p {
        Parts::FunctionCall { name, .. } => Some(name.clone()),
        _ => None,
    });
    assert_eq!(names, vec![s("lookup"), s("book"), s("lookup")]);
    let lengths = extract_with(&events, |p: &Parts| Some(p.to_text().len()));
    assert_eq!(lengths, vec![0, 1, 0, 1, 0]);
    let texts = extract_with(&events, |p: &Parts| match p {
        Parts::Text { text } => Some(text.clone()),
        _ => None,
    });
    assert_eq!(texts, extract_text(&events));
    let nothing: Vec<u8> = extract_with(&events, |_p: &Parts| None);
    assert_eq!(nothing, Vec::<u8>::new());
}

#[test]
fn custom_metadata_that_is_null_reads_as_absent() {
    let mut sent = event(vec![]);
    sent.custom_metadata = Some(Json::Null);
    let read = AgentResponse::decode(&sent.encode()).expect("an event");
    assert_eq!(read.custom_metadata, None);
    sent.custom_metadata = Some(Json::Bool(false));
    assert_eq!(AgentResponse::decode(&sent.encode()), Ok(sent));
}
