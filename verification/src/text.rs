//! Reading JSON text into [`Json`](crate::json::Json).
//!
//! The text is parsed by `serde_json`; what it yields is then copied, member
//! by member, into a value of this crate. The parser's behaviour is taken on
//! trust and has a name, [`parsed`]; the copy is proved to keep the model.

use vstd::prelude::*;
use crate::error::DecodeError;
use crate::json::{Json, JsonView, Number, NumberView};

verus! {

/// `serde_json::Value`, carried as an opaque value: what it holds is known
/// only through [`value_model`].
#[verifier::external_type_specification]
#[verifier::external_body]
pub struct ExValue(serde_json::Value);

/// `serde_json::Error`, carried as an opaque value and mapped to
/// [`DecodeError::Syntax`].
#[verifier::external_type_specification]
#[verifier::external_body]
pub struct ExError(serde_json::Error);

/// What a `serde_json::Value` holds: `null`, a boolean, a number, a string,
/// the items of an array in order, or the members of an object in the order
/// in which the value hands them out. A number is `Int` where it fits 64
/// signed bits and is otherwise its decimal text.
pub uninterp spec fn value_model(v: serde_json::Value) -> JsonView;

/// What `serde_json::from_str` makes of a text: the model of the value that
/// it returns, or `None` where it reports an error.
pub uninterp spec fn parsed(text: Seq<char>) -> Option<JsonView>;

/// `serde_json::from_str::<Value>`: the outcome depends on the text alone and
/// is named by [`parsed`].
#[verifier::external_body]
fn parse_value(text: &str) -> (r: Result<serde_json::Value, serde_json::Error>)
    ensures
        match r {
            Ok(v) => parsed(text@) == Some(value_model(v)),
            Err(_) => parsed(text@) is None,
        },
{
    serde_json::from_str::<serde_json::Value>(text)
}

/// `Value::is_null`: true exactly for `Value::Null`.
#[verifier::external_body]
fn value_is_null(v: &serde_json::Value) -> (r: bool)
    ensures
        r == (value_model(*v) is Null),
{
    v.is_null()
}

/// `Value::as_bool`: the boolean of `Value::Bool`, `None` for any other
/// variant.
#[verifier::external_body]
fn value_as_bool(v: &serde_json::Value) -> (r: Option<bool>)
    ensures
        r == (match value_model(*v) {
            JsonView::Bool(b) => Some(b),
            _ => None,
        }),
{
    v.as_bool()
}

/// `Value::as_i64`: the integer of a `Value::Number` that fits 64 signed
/// bits, `None` for any other number and any other variant.
#[verifier::external_body]
fn value_as_i64(v: &serde_json::Value) -> (r: Option<i64>)
    ensures
        r == (match value_model(*v) {
            JsonView::Number(NumberView::Int(i)) => Some(i),
            _ => None,
        }),
{
    v.as_i64()
}

/// `Value::as_number` with `Number`'s `to_string`: the decimal text of a
/// `Value::Number`, `None` for any other variant. The text is what the model
/// holds for a number that is no `Int`.
#[verifier::external_body]
fn value_number_text(v: &serde_json::Value) -> (r: Option<String>)
    ensures
        match value_model(*v) {
            JsonView::Number(NumberView::Decimal(t)) => r is Some && r->0@ == t,
            JsonView::Number(NumberView::Int(_)) => r is Some,
            _ => r is None,
        },
{
    match v.as_number() {
        Some(n) => Some(n.to_string()),
        None => None,
    }
}

/// `Value::as_str`: the text of `Value::String`, `None` for any other
/// variant.
#[verifier::external_body]
fn value_as_str(v: &serde_json::Value) -> (r: Option<&str>)
    ensures
        match value_model(*v) {
            JsonView::Str(s) => r is Some && r->0@ == s,
            _ => r is None,
        },
{
    v.as_str()
}

/// `Value::as_array`: the items of `Value::Array`, `None` for any other
/// variant.
#[verifier::external_body]
fn value_as_array(v: &serde_json::Value) -> (r: Option<&Vec<serde_json::Value>>)
    ensures
        match value_model(*v) {
            JsonView::Array(items) => {
                &&& r is Some
                &&& r->0@.len() == items.len()
                &&& forall|i: int|
                    0 <= i < items.len() ==> value_model(#[trigger] r->0@[i]) == items[i]
            },
            _ => r is None,
        },
{
    v.as_array()
}

/// `Value::as_object` with `Map::iter`: the members of `Value::Object`, each
/// key with its value, in the order of the map's iterator; `None` for any
/// other variant.
#[verifier::external_body]
fn value_members(v: &serde_json::Value) -> (r: Option<Vec<(&String, &serde_json::Value)>>)
    ensures
        match value_model(*v) {
            JsonView::Object(members) => {
                &&& r is Some
                &&& r->0@.len() == members.len()
                &&& forall|i: int|
                    0 <= i < members.len() ==> (#[trigger] r->0@[i]).0@ == members[i].0
                        && value_model(*r->0@[i].1) == members[i].1
            },
            _ => r is None,
        },
{
    match v.as_object() {
        Some(m) => Some(m.iter().collect()),
        None => None,
    }
}

/// Copies a parsed value into a value of this crate, keeping its model.
fn from_value(v: &serde_json::Value) -> (r: Json)
    ensures
        r@ == value_model(*v),
    decreases value_model(*v),
{
    if value_is_null(v) {
        return Json::Null;
    }
    if let Some(b) = value_as_bool(v) {
        return Json::Bool(b);
    }
    if let Some(i) = value_as_i64(v) {
        return Json::Number(Number::Int(i));
    }
    if let Some(t) = value_number_text(v) {
        return Json::Number(Number::Decimal(t));
    }
    if let Some(s) = value_as_str(v) {
        return Json::string(s);
    }
    if let Some(items) = value_as_array(v) {
        let ghost want = value_model(*v)->Array_0;
        let mut out: Vec<Json> = Vec::new();
        let mut i: usize = 0;
        while i < items.len()
            invariant
                i <= items.len(),
                value_model(*v) == JsonView::Array(want),
                items@.len() == want.len(),
                forall|k: int| 0 <= k < want.len() ==> value_model(#[trigger] items@[k]) == want[k],
                out@.len() == i,
                forall|k: int| 0 <= k < i ==> (#[trigger] out@[k])@ == want[k],
            decreases items.len() - i,
        {
            proof {
                assert(decreases_to!(value_model(*v) => value_model(*v)->Array_0));
                assert(decreases_to!(want => want[i as int]));
            }
            out.push(from_value(&items[i]));
            i += 1;
        }
        assert(out.deep_view() =~= want);
        return Json::array(out);
    }
    match value_members(v) {
        Some(members) => {
            let ghost want = value_model(*v)->Object_0;
            let mut out: Vec<(String, Json)> = Vec::new();
            let mut i: usize = 0;
            while i < members.len()
                invariant
                    i <= members.len(),
                    value_model(*v) == JsonView::Object(want),
                    members@.len() == want.len(),
                    forall|k: int|
                        0 <= k < want.len() ==> (#[trigger] members@[k]).0@ == want[k].0
                            && value_model(*members@[k].1) == want[k].1,
                    out@.len() == i,
                    forall|k: int|
                        0 <= k < i ==> (#[trigger] out@[k]).0@ == want[k].0 && out@[k].1@
                            == want[k].1,
                decreases members.len() - i,
            {
                proof {
                    assert(decreases_to!(value_model(*v) => value_model(*v)->Object_0));
                    assert(decreases_to!(want => want[i as int]));
                    assert(decreases_to!(want[i as int] => want[i as int].1));
                }
                let key: String = members[i].0.clone();
                let value = from_value(members[i].1);
                out.push((key, value));
                i += 1;
            }
            assert(out.deep_view() =~= want);
            Json::object(out)
        },
        None => {
            // No value falls here: a model is one of the six kinds.
            Json::Null
        },
    }
}

impl Json {
    /// Reads a JSON text. The result is `Ok` exactly where the parser accepts
    /// the text, and then holds what the parser read; every rejected text
    /// gives [`DecodeError::Syntax`].
    pub fn parse(text: &str) -> (r: Result<Json, DecodeError>)
        ensures
            r matches Ok(j) ==> parsed(text@) == Some(j@),
            parsed(text@) is Some <==> r is Ok,
            r is Err ==> r == Err::<Json, DecodeError>(DecodeError::Syntax),
    {
        match parse_value(text) {
            Ok(v) => Ok(from_value(&v)),
            Err(_) => Err(DecodeError::Syntax),
        }
    }
}

} // verus!
