use agent_session::error::DecodeError;
use agent_session::json::{Json, Number};
use agent_session::part::{CodeLanguage, Outcome, PartKind, Parts};

fn s(text: &str) -> String {
    text.to_string()
}

fn parse(text: &str) -> Json {
    Json::parse(text).expect("valid JSON")
}

fn decode_text(text: &str) -> Result<Parts, DecodeError> {
    Parts::decode(&parse(text))
}

fn samples() -> Vec<Parts> {
    vec![
        Parts::Text { text: s("hello") },
        Parts::Text { text: s("") },
        Parts::Thought { thought: true },
        Parts::Thought { thought: false },
        Parts::ExecutableCode { code: s("print(1)"), language: CodeLanguage::Python },
        Parts::ExecutableCode { code: s(""), language: CodeLanguage::LanguageUnspecified },
        Parts::CodeExecutionResult { outcome: Outcome::OutcomeUnspecified, output: s("") },
        Parts::CodeExecutionResult { outcome: Outcome::OutcomeOk, output: s("1\n") },
        Parts::CodeExecutionResult { outcome: Outcome::OutcomeFailed, output: s("boom") },
        Parts::CodeExecutionResult { outcome: Outcome::OutcomeDeadlineExceeded, output: s("late") },
        Parts::FileData { file_uri: s("gs://bucket/a.png"), mime_type: s("image/png") },
        Parts::InlineData { data: s("AAAA"), mime_type: s("application/octet-stream") },
        Parts::FunctionCall {
            id: s("c1"),
            name: s("lookup"),
            args: Json::Object(vec![
                (s("city"), Json::Str(s("Oslo"))),
                (s("days"), Json::Number(Number::Int(3))),
            ]),
        },
        Parts::FunctionCall { id: s("c2"), name: s("noop"), args: Json::Null },
        Parts::FunctionResponse {
            id: s("c1"),
            name: s("lookup"),
            response: Json::Array(vec![Json::Bool(true), Json::Number(Number::Decimal(s("0.5")))]),
        },
        Parts::VideoMetadata { start_offset: s("0s"), end_offset: s("12.5s") },
    ]
}

#[test]
fn round_trip_of_every_kind() {
    for part in samples() {
        let wire = part.encode();
        assert_eq!(Parts::decode(&wire), Ok(part.clone()), "wire form {:?}", wire);
    }
}

#[test]
fn round_trip_through_json_text() {
    let part = Parts::FileData { file_uri: s("gs://b/x"), mime_type: s("text/plain") };
    assert_eq!(decode_text(r#"{"fileUri":"gs://b/x","mimeType":"text/plain"}"#), Ok(part.clone()));
    assert_eq!(part.encode(), parse(r#"{"fileUri":"gs://b/x","mimeType":"text/plain"}"#));
}

#[test]
fn wire_form_has_the_fields_of_the_kind_and_no_tag() {
    assert_eq!(
        Parts::Text { text: s("hi") }.encode(),
        Json::Object(vec![(s("text"), Json::Str(s("hi")))])
    );
    assert_eq!(
        Parts::Thought { thought: true }.encode(),
        Json::Object(vec![(s("thought"), Json::Bool(true))])
    );
    assert_eq!(
        Parts::ExecutableCode { code: s("x"), language: CodeLanguage::Python }.encode(),
        Json::Object(vec![(s("code"), Json::Str(s("x"))), (s("language"), Json::Str(s("Python")))])
    );
    assert_eq!(
        Parts::CodeExecutionResult { outcome: Outcome::OutcomeOk, output: s("o") }.encode(),
        Json::Object(vec![
            (s("outcome"), Json::Str(s("OUTCOME_OK"))),
            (s("output"), Json::Str(s("o"))),
        ])
    );
    assert_eq!(
        Parts::InlineData { data: s("d"), mime_type: s("m") }.encode(),
        Json::Object(vec![(s("data"), Json::Str(s("d"))), (s("mimeType"), Json::Str(s("m")))])
    );
    assert_eq!(
        Parts::FunctionCall { id: s("i"), name: s("n"), args: Json::Null }.encode(),
        Json::Object(vec![
            (s("id"), Json::Str(s("i"))),
            (s("name"), Json::Str(s("n"))),
            (s("args"), Json::Null),
        ])
    );
    assert_eq!(
        Parts::FunctionResponse { id: s("i"), name: s("n"), response: Json::Bool(false) }.encode(),
        Json::Object(vec![
            (s("id"), Json::Str(s("i"))),
            (s("name"), Json::Str(s("n"))),
            (s("response"), Json::Bool(false)),
        ])
    );
    assert_eq!(
        Parts::VideoMetadata { start_offset: s("1s"), end_offset: s("2s") }.encode(),
        Json::Object(vec![
            (s("startOffset"), Json::Str(s("1s"))),
            (s("endOffset"), Json::Str(s("2s"))),
        ])
    );
}

#[test]
fn text_wins_over_thought() {
    assert_eq!(decode_text(r#"{"thought":true,"text":"a"}"#), Ok(Parts::Text { text: s("a") }));
}

#[test]
fn a_field_of_the_wrong_type_does_not_match() {
    assert_eq!(decode_text(r#"{"text":5,"thought":true}"#), Ok(Parts::Thought { thought: true }));
    assert_eq!(decode_text(r#"{"text":null,"thought":false}"#), Ok(Parts::Thought { thought: false }));
}

#[test]
fn file_data_wins_over_inline_data() {
    assert_eq!(
        decode_text(r#"{"data":"AAAA","mimeType":"image/png","fileUri":"gs://x"}"#),
        Ok(Parts::FileData { file_uri: s("gs://x"), mime_type: s("image/png") })
    );
}

#[test]
fn function_call_wins_over_function_response() {
    assert_eq!(
        decode_text(r#"{"id":"1","name":"f","response":{"ok":true},"args":{"x":1}}"#),
        Ok(Parts::FunctionCall {
            id: s("1"),
            name: s("f"),
            args: Json::Object(vec![(s("x"), Json::Number(Number::Int(1)))]),
        })
    );
}

#[test]
fn the_earliest_kind_wins_among_all() {
    let everything = r#"{
        "startOffset": "0s", "endOffset": "1s",
        "id": "1", "name": "f", "args": {}, "response": {},
        "data": "AA", "mimeType": "m", "fileUri": "u",
        "outcome": "OUTCOME_OK", "output": "o",
        "code": "c", "language": "Python",
        "thought": true,
        "text": "first"
    }"#;
    assert_eq!(decode_text(everything), Ok(Parts::Text { text: s("first") }));
    let without_text = r#"{
        "startOffset": "0s", "endOffset": "1s",
        "id": "1", "name": "f", "args": {}, "response": {},
        "data": "AA", "mimeType": "m", "fileUri": "u",
        "outcome": "OUTCOME_OK", "output": "o",
        "code": "c", "language": "Python"
    }"#;
    assert_eq!(
        decode_text(without_text),
        Ok(Parts::ExecutableCode { code: s("c"), language: CodeLanguage::Python })
    );
    let from_outcome = r#"{
        "startOffset": "0s", "endOffset": "1s",
        "id": "1", "name": "f", "response": {},
        "data": "AA", "mimeType": "m",
        "outcome": "OUTCOME_FAILED", "output": "o"
    }"#;
    assert_eq!(
        decode_text(from_outcome),
        Ok(Parts::CodeExecutionResult { outcome: Outcome::OutcomeFailed, output: s("o") })
    );
    let from_inline = r#"{
        "startOffset": "0s", "endOffset": "1s",
        "id": "1", "name": "f", "response": {},
        "data": "AA", "mimeType": "m"
    }"#;
    assert_eq!(decode_text(from_inline), Ok(Parts::InlineData { data: s("AA"), mime_type: s("m") }));
    let from_response = r#"{
        "startOffset": "0s", "endOffset": "1s",
        "id": "1", "name": "f", "response": [1]
    }"#;
    assert_eq!(
        decode_text(from_response),
        Ok(Parts::FunctionResponse {
            id: s("1"),
            name: s("f"),
            response: Json::Array(vec![Json::Number(Number::Int(1))]),
        })
    );
    assert_eq!(
        decode_text(r#"{"startOffset": "0s", "endOffset": "1s", "id": "1"}"#),
        Ok(Parts::VideoMetadata { start_offset: s("0s"), end_offset: s("1s") })
    );
}

#[test]
fn members_that_a_kind_does_not_name_are_ignored() {
    assert_eq!(decode_text(r#"{"text":"a","extra":[1,2]}"#), Ok(Parts::Text { text: s("a") }));
}

#[test]
fn snake_case_names_are_read_too() {
    assert_eq!(
        decode_text(r#"{"file_uri":"u","mime_type":"m"}"#),
        Ok(Parts::FileData { file_uri: s("u"), mime_type: s("m") })
    );
    assert_eq!(
        decode_text(r#"{"start_offset":"0s","end_offset":"1s"}"#),
        Ok(Parts::VideoMetadata { start_offset: s("0s"), end_offset: s("1s") })
    );
    assert_eq!(
        decode_text(r#"{"fileUri":"camel","file_uri":"snake","mimeType":"m"}"#),
        Ok(Parts::FileData { file_uri: s("camel"), mime_type: s("m") })
    );
}

#[test]
fn unrecognized_parts() {
    assert_eq!(decode_text("{}"), Err(DecodeError::UnrecognizedPart));
    assert_eq!(decode_text(r#""text""#), Err(DecodeError::UnrecognizedPart));
    assert_eq!(decode_text("[]"), Err(DecodeError::UnrecognizedPart));
    assert_eq!(decode_text("null"), Err(DecodeError::UnrecognizedPart));
    assert_eq!(decode_text(r#"{"code":"x"}"#), Err(DecodeError::UnrecognizedPart));
    assert_eq!(decode_text(r#"{"code":"x","language":"RUBY"}"#), Err(DecodeError::UnrecognizedPart));
    assert_eq!(decode_text(r#"{"id":"1","name":"f"}"#), Err(DecodeError::UnrecognizedPart));
    assert_eq!(decode_text(r#"{"mimeType":"m"}"#), Err(DecodeError::UnrecognizedPart));
    assert_eq!(decode_text(r#"{"Text":"a"}"#), Err(DecodeError::UnrecognizedPart));
}

#[test]
fn one_kind_at_a_time() {
    let m = match parse(r#"{"text":"a","thought":true}"#) {
        Json::Object(m) => m,
        other => panic!("not an object: {:?}", other),
    };
    assert_eq!(Parts::decode_as(&m, PartKind::Text), Ok(Parts::Text { text: s("a") }));
    assert_eq!(Parts::decode_as(&m, PartKind::Thought), Ok(Parts::Thought { thought: true }));
    assert_eq!(Parts::decode_as(&m, PartKind::ExecutableCode), Err(DecodeError::MissingField));
    assert_eq!(Parts::decode_as(&m, PartKind::CodeExecutionResult), Err(DecodeError::MissingField));
    assert_eq!(Parts::decode_as(&m, PartKind::FileData), Err(DecodeError::MissingField));
    assert_eq!(Parts::decode_as(&m, PartKind::InlineData), Err(DecodeError::MissingField));
    assert_eq!(Parts::decode_as(&m, PartKind::FunctionCall), Err(DecodeError::MissingField));
    assert_eq!(Parts::decode_as(&m, PartKind::FunctionResponse), Err(DecodeError::MissingField));
    assert_eq!(Parts::decode_as(&m, PartKind::VideoMetadata), Err(DecodeError::MissingField));
    let wrong = match parse(r#"{"text":1,"code":"c","language":"Go"}"#) {
        Json::Object(m) => m,
        other => panic!("not an object: {:?}", other),
    };
    assert_eq!(Parts::decode_as(&wrong, PartKind::Text), Err(DecodeError::WrongType));
    assert_eq!(Parts::decode_as(&wrong, PartKind::ExecutableCode), Err(DecodeError::UnknownName));
}

#[test]
fn kinds_of_parts() {
    let kinds: Vec<PartKind> = samples().iter().map(|p| p.kind()).collect();
    assert_eq!(kinds[0], PartKind::Text);
    assert_eq!(kinds[2], PartKind::Thought);
    assert_eq!(kinds[4], PartKind::ExecutableCode);
    assert_eq!(kinds[6], PartKind::CodeExecutionResult);
    assert_eq!(kinds[10], PartKind::FileData);
    assert_eq!(kinds[11], PartKind::InlineData);
    assert_eq!(kinds[12], PartKind::FunctionCall);
    assert_eq!(kinds[14], PartKind::FunctionResponse);
    assert_eq!(kinds[15], PartKind::VideoMetadata);
}

#[test]
fn only_a_text_part_shows_text() {
    assert_eq!(Parts::Text { text: s("shown") }.to_text(), "shown");
    assert_eq!(Parts::Thought { thought: true }.to_text(), "");
    assert_eq!(Parts::InlineData { data: s("AAAA"), mime_type: s("m") }.to_text(), "");
}

#[test]
fn names_of_languages_and_outcomes() {
    assert_eq!(CodeLanguage::LanguageUnspecified.encode(), Json::Str(s("LANGUAGE_UNSPECIFIED")));
    assert_eq!(CodeLanguage::Python.encode(), Json::Str(s("Python")));
    assert_eq!(CodeLanguage::decode(&Json::Str(s("Python"))), Ok(CodeLanguage::Python));
    assert_eq!(
        CodeLanguage::decode(&Json::Str(s("LANGUAGE_UNSPECIFIED"))),
        Ok(CodeLanguage::LanguageUnspecified)
    );
    assert_eq!(CodeLanguage::decode(&Json::Str(s("python"))), Err(DecodeError::UnknownName));
    assert_eq!(CodeLanguage::decode(&Json::Bool(true)), Err(DecodeError::WrongType));
    let outcomes = [
        (Outcome::OutcomeUnspecified, "OUTCOME_UNSPECIFIED"),
        (Outcome::OutcomeOk, "OUTCOME_OK"),
        (Outcome::OutcomeFailed, "OUTCOME_FAILED"),
        (Outcome::OutcomeDeadlineExceeded, "OUTCOME_DEADLINE_EXCEEDED"),
    ];
    for (outcome, name) in outcomes {
        assert_eq!(outcome.encode(), Json::Str(s(name)));
        assert_eq!(Outcome::decode(&Json::Str(s(name))), Ok(outcome));
    }
    assert_eq!(Outcome::decode(&Json::Str(s("OK"))), Err(DecodeError::UnknownName));
    assert_eq!(Outcome::decode(&Json::Null), Err(DecodeError::WrongType));
}
