use agent_session::error::DecodeError;
use agent_session::json::{Json, Number};

fn s(text: &str) -> String {
    text.to_string()
}

#[test]
fn parses_every_kind_of_value() {
    assert_eq!(Json::parse("null"), Ok(Json::Null));
    assert_eq!(Json::parse("true"), Ok(Json::Bool(true)));
    assert_eq!(Json::parse("false"), Ok(Json::Bool(false)));
    assert_eq!(Json::parse("\"a b\""), Ok(Json::Str(s("a b"))));
    assert_eq!(Json::parse("\"\""), Ok(Json::Str(s(""))));
    assert_eq!(Json::parse("[]"), Ok(Json::Array(vec![])));
    assert_eq!(Json::parse("{}"), Ok(Json::Object(vec![])));
    assert_eq!(
        Json::parse("[1, \"x\", [null]]"),
        Ok(Json::Array(vec![
            Json::Number(Number::Int(1)),
            Json::Str(s("x")),
            Json::Array(vec![Json::Null]),
        ]))
    );
}

#[test]
fn whole_numbers_of_64_bits_are_ints() {
    assert_eq!(Json::parse("0"), Ok(Json::Number(Number::Int(0))));
    assert_eq!(Json::parse("-7"), Ok(Json::Number(Number::Int(-7))));
    assert_eq!(Json::parse("9223372036854775807"), Ok(Json::Number(Number::Int(i64::MAX))));
    assert_eq!(Json::parse("-9223372036854775808"), Ok(Json::Number(Number::Int(i64::MIN))));
}

#[test]
fn other_numbers_keep_their_decimal_text() {
    assert_eq!(Json::parse("1000.0"), Ok(Json::Number(Number::Decimal(s("1000.0")))));
    assert_eq!(Json::parse("0.5"), Ok(Json::Number(Number::Decimal(s("0.5")))));
    assert_eq!(Json::parse("-2.25"), Ok(Json::Number(Number::Decimal(s("-2.25")))));
    assert_eq!(
        Json::parse("18446744073709551615"),
        Ok(Json::Number(Number::Decimal(s("18446744073709551615"))))
    );
}

#[test]
fn an_object_hands_out_each_key_once() {
    let parsed = Json::parse(r#"{"a": 1, "a": 2}"#).expect("valid JSON");
    assert_eq!(parsed, Json::Object(vec![(s("a"), Json::Number(Number::Int(2)))]));
}

#[test]
fn nested_members_are_copied() {
    let parsed = Json::parse(r#"{"outer": {"inner": [true, {"k": "v"}]}}"#).expect("valid JSON");
    let expected = Json::Object(vec![(
        s("outer"),
        Json::Object(vec![(
            s("inner"),
            Json::Array(vec![Json::Bool(true), Json::Object(vec![(s("k"), Json::Str(s("v")))])]),
        )]),
    )]);
    assert_eq!(parsed, expected);
}

#[test]
fn text_that_is_no_json_is_a_syntax_error() {
    assert_eq!(Json::parse("{not an array}"), Err(DecodeError::Syntax));
    assert_eq!(Json::parse(""), Err(DecodeError::Syntax));
    assert_eq!(Json::parse("[1, 2"), Err(DecodeError::Syntax));
    assert_eq!(Json::parse("{\"a\": }"), Err(DecodeError::Syntax));
    assert_eq!(Json::parse("nul"), Err(DecodeError::Syntax));
    assert_eq!(Json::parse("1 2"), Err(DecodeError::Syntax));
}

#[test]
fn find_reads_the_first_member_with_the_key() {
    let members = vec![
        (s("a"), Json::Number(Number::Int(1))),
        (s("b"), Json::Number(Number::Int(2))),
        (s("a"), Json::Number(Number::Int(3))),
    ];
    assert_eq!(Json::find(&members, "a"), Some(&Json::Number(Number::Int(1))));
    assert_eq!(Json::find(&members, "b"), Some(&Json::Number(Number::Int(2))));
    assert_eq!(Json::find(&members, "c"), None);
    assert_eq!(Json::find(&vec![], "a"), None);
}

#[test]
fn member_prefers_the_first_name() {
    let members = vec![(s("app_name"), Json::Str(s("snake"))), (s("appName"), Json::Str(s("camel")))];
    assert_eq!(Json::member(&members, "appName", "app_name"), Some(&Json::Str(s("camel"))));
    assert_eq!(Json::member(&members, "missing", "app_name"), Some(&Json::Str(s("snake"))));
    assert_eq!(Json::member(&members, "missing", "absent"), None);
}

#[test]
fn accessors_and_constructors() {
    let array = Json::array(vec![Json::Null]);
    assert_eq!(array.as_array(), Some(&vec![Json::Null]));
    assert_eq!(array.as_object(), None);
    let object = Json::object(vec![(s("k"), Json::Bool(true))]);
    assert_eq!(object.as_object(), Some(&vec![(s("k"), Json::Bool(true))]));
    assert_eq!(object.as_array(), None);
    assert_eq!(Json::string("abc"), Json::Str(s("abc")));
}

#[test]
fn a_clone_is_equal() {
    let value = Json::parse(r#"{"a": [1, 2.5, {"b": null}], "c": "d"}"#).expect("valid JSON");
    assert_eq!(value.clone(), value);
    assert_eq!(Number::Decimal(s("2.5")).clone(), Number::Decimal(s("2.5")));
}
