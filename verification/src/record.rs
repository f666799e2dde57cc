//! Reading records out of structured values.
//!
//! A record is an object whose members are read by name. Every reader here
//! is defined over the model and has an executable twin that is proved to
//! agree with it; decoders and encoders of records are built from them.

use vstd::prelude::*;
use crate::error::{lift, DecodeError};
use crate::json::{find, find_from, member, Json, JsonView, Members, Number, NumberView};

verus! {

/// The text of a string value.
pub open spec fn as_text(j: JsonView) -> Result<Seq<char>, DecodeError> {
    match j {
        JsonView::Str(s) => Ok(s),
        _ => Err(DecodeError::WrongType),
    }
}

/// The truth value of a boolean.
pub open spec fn as_flag(j: JsonView) -> Result<bool, DecodeError> {
    match j {
        JsonView::Bool(b) => Ok(b),
        _ => Err(DecodeError::WrongType),
    }
}

/// The number that a value is.
pub open spec fn as_number(j: JsonView) -> Result<NumberView, DecodeError> {
    match j {
        JsonView::Number(n) => Ok(n),
        _ => Err(DecodeError::WrongType),
    }
}

/// The whole number that a value is, where it fits 32 signed bits.
pub open spec fn as_i32(j: JsonView) -> Result<i32, DecodeError> {
    match j {
        JsonView::Number(NumberView::Int(i)) => if i32::MIN <= i <= i32::MAX {
            Ok(i as i32)
        } else {
            Err(DecodeError::OutOfRange)
        },
        _ => Err(DecodeError::WrongType),
    }
}

/// The members of an object.
pub open spec fn as_members(j: JsonView) -> Result<Members, DecodeError> {
    match j {
        JsonView::Object(m) => Ok(m),
        _ => Err(DecodeError::NotAnObject),
    }
}

/// The items of an array.
pub open spec fn as_items(j: JsonView) -> Result<Seq<JsonView>, DecodeError> {
    match j {
        JsonView::Array(items) => Ok(items),
        _ => Err(DecodeError::NotAnArray),
    }
}

/// A field that must be there: its value, whatever it is.
pub open spec fn required(m: Members, name: Seq<char>, alt: Seq<char>) -> Result<
    JsonView,
    DecodeError,
> {
    match member(m, name, alt) {
        Some(v) => Ok(v),
        None => Err(DecodeError::MissingField),
    }
}

/// A field that may be left out: `None` where it is absent or `null`.
pub open spec fn optional(m: Members, name: Seq<char>, alt: Seq<char>) -> Option<JsonView> {
    match member(m, name, alt) {
        Some(JsonView::Null) => None,
        Some(v) => Some(v),
        None => None,
    }
}

/// A required field read by `f`.
pub open spec fn req<T>(
    m: Members,
    name: Seq<char>,
    alt: Seq<char>,
    f: spec_fn(JsonView) -> Result<T, DecodeError>,
) -> Result<T, DecodeError> {
    match required(m, name, alt) {
        Ok(v) => f(v),
        Err(e) => Err(e),
    }
}

/// An optional field read by `f`.
pub open spec fn opt<T>(
    m: Members,
    name: Seq<char>,
    alt: Seq<char>,
    f: spec_fn(JsonView) -> Result<T, DecodeError>,
) -> Result<Option<T>, DecodeError> {
    match optional(m, name, alt) {
        Some(v) => match f(v) {
            Ok(t) => Ok(Some(t)),
            Err(e) => Err(e),
        },
        None => Ok(None),
    }
}

/// Every item read by `f`, in order. Where some item fails, the error is that
/// of the first one that does.
pub open spec fn all<T>(items: Seq<JsonView>, f: spec_fn(JsonView) -> Result<T, DecodeError>) -> Result<
    Seq<T>,
    DecodeError,
>
    decreases items.len(),
{
    if items.len() == 0 {
        Ok(Seq::empty())
    } else {
        match all(items.drop_last(), f) {
            Err(e) => Err(e),
            Ok(init) => match f(items.last()) {
                Ok(t) => Ok(init.push(t)),
                Err(e) => Err(e),
            },
        }
    }
}

/// An array whose items are each read by `f`.
pub open spec fn list<T>(j: JsonView, f: spec_fn(JsonView) -> Result<T, DecodeError>) -> Result<
    Seq<T>,
    DecodeError,
> {
    match j {
        JsonView::Array(items) => all(items, f),
        _ => Err(DecodeError::NotAnArray),
    }
}

/// A required string field.
pub open spec fn req_text(m: Members, name: Seq<char>, alt: Seq<char>) -> Result<
    Seq<char>,
    DecodeError,
> {
    req(m, name, alt, |j: JsonView| as_text(j))
}

/// An optional string field.
pub open spec fn opt_text(m: Members, name: Seq<char>, alt: Seq<char>) -> Result<
    Option<Seq<char>>,
    DecodeError,
> {
    opt(m, name, alt, |j: JsonView| as_text(j))
}

/// A required boolean field.
pub open spec fn req_flag(m: Members, name: Seq<char>, alt: Seq<char>) -> Result<bool, DecodeError> {
    req(m, name, alt, |j: JsonView| as_flag(j))
}

/// An optional boolean field.
pub open spec fn opt_flag(m: Members, name: Seq<char>, alt: Seq<char>) -> Result<
    Option<bool>,
    DecodeError,
> {
    opt(m, name, alt, |j: JsonView| as_flag(j))
}

/// A required field holding a whole number of 32 signed bits.
pub open spec fn req_i32(m: Members, name: Seq<char>, alt: Seq<char>) -> Result<i32, DecodeError> {
    req(m, name, alt, |j: JsonView| as_i32(j))
}

/// An optional numeric field.
pub open spec fn opt_number(m: Members, name: Seq<char>, alt: Seq<char>) -> Result<
    Option<NumberView>,
    DecodeError,
> {
    opt(m, name, alt, |j: JsonView| as_number(j))
}

/// A required numeric field.
pub open spec fn req_number(m: Members, name: Seq<char>, alt: Seq<char>) -> Result<
    NumberView,
    DecodeError,
> {
    req(m, name, alt, |j: JsonView| as_number(j))
}

/// A required field holding an array of strings.
pub open spec fn req_texts(m: Members, name: Seq<char>, alt: Seq<char>) -> Result<
    Seq<Seq<char>>,
    DecodeError,
> {
    req(m, name, alt, |j: JsonView| list(j, |x: JsonView| as_text(x)))
}

/// An optional field holding an array of strings.
pub open spec fn opt_texts(m: Members, name: Seq<char>, alt: Seq<char>) -> Result<
    Option<Seq<Seq<char>>>,
    DecodeError,
> {
    opt(m, name, alt, |j: JsonView| list(j, |x: JsonView| as_text(x)))
}

/// A required field holding an array of whole numbers of 32 signed bits.
pub open spec fn req_i32s(m: Members, name: Seq<char>, alt: Seq<char>) -> Result<
    Seq<i32>,
    DecodeError,
> {
    req(m, name, alt, |j: JsonView| list(j, |x: JsonView| as_i32(x)))
}

/// A required field holding an array of numbers.
pub open spec fn req_numbers(m: Members, name: Seq<char>, alt: Seq<char>) -> Result<
    Seq<NumberView>,
    DecodeError,
> {
    req(m, name, alt, |j: JsonView| list(j, |x: JsonView| as_number(x)))
}

/// The members whose key is none of `known`, in their order.
pub open spec fn rest(m: Members, known: Seq<Seq<char>>) -> Members
    decreases m.len(),
{
    if m.len() == 0 {
        Seq::empty()
    } else if known.contains(m.last().0) {
        rest(m.drop_last(), known)
    } else {
        rest(m.drop_last(), known).push(m.last())
    }
}

/// Every member's value read by `f`, each under its key, in order. Where
/// some value fails, the error is that of the first one that does.
pub open spec fn each<T>(m: Members, f: spec_fn(JsonView) -> Result<T, DecodeError>) -> Result<
    Seq<(Seq<char>, T)>,
    DecodeError,
>
    decreases m.len(),
{
    if m.len() == 0 {
        Ok(Seq::empty())
    } else {
        match each(m.drop_last(), f) {
            Err(e) => Err(e),
            Ok(init) => match f(m.last().1) {
                Ok(t) => Ok(init.push((m.last().0, t))),
                Err(e) => Err(e),
            },
        }
    }
}

/// One member.
pub open spec fn put(name: Seq<char>, value: JsonView) -> Members {
    seq![(name, value)]
}

/// One member where there is a value, none where there is not.
pub open spec fn put_opt(name: Seq<char>, value: Option<JsonView>) -> Members {
    match value {
        Some(v) => seq![(name, v)],
        None => Seq::empty(),
    }
}

/// The wire form of a text that may be absent.
pub open spec fn opt_text_json(text: Option<Seq<char>>) -> Option<JsonView> {
    match text {
        Some(s) => Some(JsonView::Str(s)),
        None => None,
    }
}

/// The wire form of a truth value that may be absent.
pub open spec fn opt_flag_json(flag: Option<bool>) -> Option<JsonView> {
    match flag {
        Some(b) => Some(JsonView::Bool(b)),
        None => None,
    }
}

/// The wire form of a number that may be absent.
pub open spec fn opt_number_json(n: Option<NumberView>) -> Option<JsonView> {
    match n {
        Some(n) => Some(JsonView::Number(n)),
        None => None,
    }
}

/// The wire form of a whole number.
pub open spec fn i32_json(i: i32) -> JsonView {
    JsonView::Number(NumberView::Int(i as i64))
}

/// The wire form of a sequence of texts.
pub open spec fn texts_json(texts: Seq<Seq<char>>) -> JsonView {
    JsonView::Array(texts.map_values(|s: Seq<char>| JsonView::Str(s)))
}

/// The wire form of a sequence of texts that may be absent.
pub open spec fn opt_texts_json(texts: Option<Seq<Seq<char>>>) -> Option<JsonView> {
    match texts {
        Some(t) => Some(texts_json(t)),
        None => None,
    }
}

/// The wire form of a sequence of whole numbers.
pub open spec fn i32s_json(numbers: Seq<i32>) -> JsonView {
    JsonView::Array(numbers.map_values(|i: i32| i32_json(i)))
}

/// The wire form of a sequence of numbers.
pub open spec fn numbers_json(numbers: Seq<NumberView>) -> JsonView {
    JsonView::Array(numbers.map_values(|n: NumberView| JsonView::Number(n)))
}

/// Keyed values written by `g`, each under its key.
pub open spec fn keyed<T>(entries: Seq<(Seq<char>, T)>, g: spec_fn(T) -> JsonView) -> Members {
    entries.map_values(|e: (Seq<char>, T)| (e.0, g(e.1)))
}

/// Reads a value as a text.
pub fn text_of(j: &Json) -> (r: Result<String, DecodeError>)
    ensures
        lift(r) == as_text(j@),
{
    match j {
        Json::Str(s) => Ok(s.clone()),
        _ => Err(DecodeError::WrongType),
    }
}

/// Reads a value as a truth value.
pub fn flag_of(j: &Json) -> (r: Result<bool, DecodeError>)
    ensures
        lift(r) == as_flag(j@),
{
    match j {
        Json::Bool(b) => Ok(*b),
        _ => Err(DecodeError::WrongType),
    }
}

/// Reads a value as a number.
pub fn number_of(j: &Json) -> (r: Result<Number, DecodeError>)
    ensures
        lift(r) == as_number(j@),
{
    match j {
        Json::Number(n) => Ok(n.clone()),
        _ => Err(DecodeError::WrongType),
    }
}

/// Reads a value as a whole number of 32 signed bits.
pub fn i32_of(j: &Json) -> (r: Result<i32, DecodeError>)
    ensures
        lift(r) == as_i32(j@),
{
    match j {
        Json::Number(Number::Int(i)) => {
            if -2147483648 <= *i && *i <= 2147483647 {
                Ok(*i as i32)
            } else {
                Err(DecodeError::OutOfRange)
            }
        },
        _ => Err(DecodeError::WrongType),
    }
}

/// Reads a value as the members of an object.
pub fn members_of(j: &Json) -> (r: Result<&Vec<(String, Json)>, DecodeError>)
    ensures
        lift(r) == as_members(j@),
{
    match j.as_object() {
        Some(m) => Ok(m),
        None => Err(DecodeError::NotAnObject),
    }
}

/// Reads a field that must be there.
pub fn field<'a>(m: &'a Vec<(String, Json)>, name: &str, alt: &str) -> (r: Result<
    &'a Json,
    DecodeError,
>)
    ensures
        lift(r) == required(m.deep_view(), name@, alt@),
{
    match Json::member(m, name, alt) {
        Some(v) => Ok(v),
        None => Err(DecodeError::MissingField),
    }
}

/// Reads a field that may be left out; `null` counts as left out.
pub fn maybe<'a>(m: &'a Vec<(String, Json)>, name: &str, alt: &str) -> (r: Option<&'a Json>)
    ensures
        r.deep_view() == optional(m.deep_view(), name@, alt@),
{
    match Json::member(m, name, alt) {
        Some(Json::Null) => None,
        Some(v) => Some(v),
        None => None,
    }
}

/// Reads a value as the items of an array.
pub fn items_of(j: &Json) -> (r: Result<&Vec<Json>, DecodeError>)
    ensures
        lift(r) == as_items(j@),
{
    match j.as_array() {
        Some(items) => Ok(items),
        None => Err(DecodeError::NotAnArray),
    }
}

/// Reads a value as an array of texts.
pub fn texts_of(j: &Json) -> (r: Result<Vec<String>, DecodeError>)
    ensures
        lift(r) == list(j@, |x: JsonView| as_text(x)),
{
    let items = match j.as_array() {
        Some(items) => items,
        None => {
            return Err(DecodeError::NotAnArray);
        },
    };
    read_all(items, text_of, Ghost(|x: JsonView| as_text(x)))
}

/// Reads a required string field.
pub fn get_text(m: &Vec<(String, Json)>, name: &str, alt: &str) -> (r: Result<String, DecodeError>)
    ensures
        lift(r) == req_text(m.deep_view(), name@, alt@),
{
    text_of(field(m, name, alt)?)
}

/// Reads an optional string field.
pub fn get_opt_text(m: &Vec<(String, Json)>, name: &str, alt: &str) -> (r: Result<
    Option<String>,
    DecodeError,
>)
    ensures
        lift(r) == opt_text(m.deep_view(), name@, alt@),
{
    match maybe(m, name, alt) {
        Some(v) => Ok(Some(text_of(v)?)),
        None => Ok(None),
    }
}

/// Reads a required boolean field.
pub fn get_flag(m: &Vec<(String, Json)>, name: &str, alt: &str) -> (r: Result<bool, DecodeError>)
    ensures
        lift(r) == req_flag(m.deep_view(), name@, alt@),
{
    flag_of(field(m, name, alt)?)
}

/// Reads an optional boolean field.
pub fn get_opt_flag(m: &Vec<(String, Json)>, name: &str, alt: &str) -> (r: Result<
    Option<bool>,
    DecodeError,
>)
    ensures
        lift(r) == opt_flag(m.deep_view(), name@, alt@),
{
    match maybe(m, name, alt) {
        Some(v) => Ok(Some(flag_of(v)?)),
        None => Ok(None),
    }
}

/// Reads a required field holding a whole number of 32 signed bits.
pub fn get_i32(m: &Vec<(String, Json)>, name: &str, alt: &str) -> (r: Result<i32, DecodeError>)
    ensures
        lift(r) == req_i32(m.deep_view(), name@, alt@),
{
    i32_of(field(m, name, alt)?)
}

/// Reads a required numeric field.
pub fn get_number(m: &Vec<(String, Json)>, name: &str, alt: &str) -> (r: Result<
    Number,
    DecodeError,
>)
    ensures
        lift(r) == req_number(m.deep_view(), name@, alt@),
{
    number_of(field(m, name, alt)?)
}

/// Reads an optional numeric field.
pub fn get_opt_number(m: &Vec<(String, Json)>, name: &str, alt: &str) -> (r: Result<
    Option<Number>,
    DecodeError,
>)
    ensures
        lift(r) == opt_number(m.deep_view(), name@, alt@),
{
    match maybe(m, name, alt) {
        Some(v) => Ok(Some(number_of(v)?)),
        None => Ok(None),
    }
}

/// Reads a required field holding an array of texts.
pub fn get_texts(m: &Vec<(String, Json)>, name: &str, alt: &str) -> (r: Result<
    Vec<String>,
    DecodeError,
>)
    ensures
        lift(r) == req_texts(m.deep_view(), name@, alt@),
{
    texts_of(field(m, name, alt)?)
}

/// Reads an optional field holding an array of texts.
pub fn get_opt_texts(m: &Vec<(String, Json)>, name: &str, alt: &str) -> (r: Result<
    Option<Vec<String>>,
    DecodeError,
>)
    ensures
        lift(r) == opt_texts(m.deep_view(), name@, alt@),
{
    match maybe(m, name, alt) {
        Some(v) => Ok(Some(texts_of(v)?)),
        None => Ok(None),
    }
}

/// Whether two texts are the same.
pub fn same_text(a: &str, b: &str) -> (r: bool)
    ensures
        r == (a@ == b@),
{
    let x = a.to_owned();
    let y = b.to_owned();
    x == y
}

/// A member of an object under construction.
pub fn entry(key: &str, value: Json) -> (r: (String, Json))
    ensures
        r.deep_view() == (key@, value@),
{
    (key.to_owned(), value)
}

/// Reads every item of `items` with `f`.
pub(crate) fn read_all<T: DeepView, F: Fn(&Json) -> Result<T, DecodeError>>(
    items: &Vec<Json>,
    f: F,
    Ghost(g): Ghost<spec_fn(JsonView) -> Result<T::V, DecodeError>>,
) -> (r: Result<Vec<T>, DecodeError>)
    requires
        forall|j: &Json| f.requires((j,)),
        forall|j: &Json, out: Result<T, DecodeError>| f.ensures((j,), out) ==> lift(out) == g(j@),
    ensures
        lift(r) == all(items.deep_view(), g),
{
    let mut out: Vec<T> = Vec::new();
    let mut i: usize = 0;
    proof {
        assert(items.deep_view().take(0).len() == 0);
        assert(out.deep_view() =~= Seq::<T::V>::empty());
    }
    while i < items.len()
        invariant
            i <= items.len(),
            forall|j: &Json| f.requires((j,)),
            forall|j: &Json, out: Result<T, DecodeError>|
                f.ensures((j,), out) ==> lift(out) == g(j@),
            all(items.deep_view().take(i as int), g) == Ok::<Seq<T::V>, DecodeError>(
                out.deep_view(),
            ),
        decreases items.len() - i,
    {
        let ghost before = out.deep_view();
        let ghost view = items.deep_view();
        proof {
            assert(view.take(i as int + 1).drop_last() =~= view.take(i as int));
            assert(view.take(i as int + 1).last() == items@[i as int]@);
        }
        match f(&items[i]) {
            Ok(t) => {
                out.push(t);
                assert(out.deep_view() =~= before.push(t.deep_view()));
            },
            Err(e) => {
                proof {
                    lemma_all_fails(view, g, i as int + 1);
                }
                return Err(e);
            },
        }
        i += 1;
    }
    assert(items.deep_view().take(i as int) =~= items.deep_view());
    Ok(out)
}

/// Once a prefix fails, the whole sequence fails with the same error.
pub proof fn lemma_all_fails<T>(
    items: Seq<JsonView>,
    f: spec_fn(JsonView) -> Result<T, DecodeError>,
    n: int,
)
    requires
        0 <= n <= items.len(),
        all(items.take(n), f) is Err,
    ensures
        all(items, f) == all(items.take(n), f),
    decreases items.len() - n,
{
    if n < items.len() {
        assert(items.take(n + 1).drop_last() =~= items.take(n));
        lemma_all_fails(items, f, n + 1);
    } else {
        assert(items.take(n) =~= items);
    }
}

/// Writes every item of `items` with `f`.
pub(crate) fn write_all<T: DeepView, F: Fn(&T) -> Json>(
    items: &Vec<T>,
    f: F,
    Ghost(g): Ghost<spec_fn(T::V) -> JsonView>,
) -> (r: Vec<Json>)
    requires
        forall|t: &T| f.requires((t,)),
        forall|t: &T, out: Json| f.ensures((t,), out) ==> out@ == g(t.deep_view()),
    ensures
        r.deep_view() == items.deep_view().map_values(g),
{
    let mut out: Vec<Json> = Vec::new();
    let mut i: usize = 0;
    while i < items.len()
        invariant
            i <= items.len(),
            forall|t: &T| f.requires((t,)),
            forall|t: &T, out: Json| f.ensures((t,), out) ==> out@ == g(t.deep_view()),
            out@.len() == i,
            forall|k: int| 0 <= k < i ==> (#[trigger] out@[k])@ == g(items@[k].deep_view()),
        decreases items.len() - i,
    {
        out.push(f(&items[i]));
        i += 1;
    }
    assert(out.deep_view() =~= items.deep_view().map_values(g));
    out
}

/// Reads a value as an array of whole numbers of 32 signed bits.
pub fn i32s_of(j: &Json) -> (r: Result<Vec<i32>, DecodeError>)
    ensures
        lift(r) == list(j@, |x: JsonView| as_i32(x)),
{
    let items = items_of(j)?;
    read_all(items, i32_of, Ghost(|x: JsonView| as_i32(x)))
}

/// Reads a value as an array of numbers.
pub fn numbers_of(j: &Json) -> (r: Result<Vec<Number>, DecodeError>)
    ensures
        lift(r) == list(j@, |x: JsonView| as_number(x)),
{
    let items = items_of(j)?;
    read_all(items, number_of, Ghost(|x: JsonView| as_number(x)))
}

/// Reads a required field holding an array of whole numbers.
pub fn get_i32s(m: &Vec<(String, Json)>, name: &str, alt: &str) -> (r: Result<
    Vec<i32>,
    DecodeError,
>)
    ensures
        lift(r) == req_i32s(m.deep_view(), name@, alt@),
{
    i32s_of(field(m, name, alt)?)
}

/// Reads a required field holding an array of numbers.
pub fn get_numbers(m: &Vec<(String, Json)>, name: &str, alt: &str) -> (r: Result<
    Vec<Number>,
    DecodeError,
>)
    ensures
        lift(r) == req_numbers(m.deep_view(), name@, alt@),
{
    numbers_of(field(m, name, alt)?)
}

/// Whether `key` is one of `known`.
pub fn is_known(key: &String, known: &Vec<&str>) -> (r: bool)
    ensures
        r == known.deep_view().contains(key@),
{
    let mut i: usize = 0;
    while i < known.len()
        invariant
            i <= known.len(),
            forall|k: int| 0 <= k < i ==> known.deep_view()[k] != key@,
        decreases known.len() - i,
    {
        if same_text(key.as_str(), known[i]) {
            assert(known.deep_view()[i as int] == key@);
            return true;
        }
        i += 1;
    }
    false
}

/// Copies the members whose key is none of `known`.
pub fn rest_of(m: &Vec<(String, Json)>, known: &Vec<&str>) -> (r: Vec<(String, Json)>)
    ensures
        r.deep_view() == rest(m.deep_view(), known.deep_view()),
{
    let mut out: Vec<(String, Json)> = Vec::new();
    let mut i: usize = 0;
    proof {
        assert(m.deep_view().take(0).len() == 0);
        assert(out.deep_view() =~= Seq::<(Seq<char>, JsonView)>::empty());
    }
    while i < m.len()
        invariant
            i <= m.len(),
            out.deep_view() == rest(m.deep_view().take(i as int), known.deep_view()),
        decreases m.len() - i,
    {
        let ghost before = out.deep_view();
        let ghost view = m.deep_view();
        proof {
            assert(view.take(i as int + 1).drop_last() =~= view.take(i as int));
            assert(view.take(i as int + 1).last() == m@[i as int].deep_view());
        }
        if !is_known(&m[i].0, known) {
            let key = m[i].0.clone();
            let value = m[i].1.clone();
            out.push((key, value));
            assert(out.deep_view() =~= before.push(m@[i as int].deep_view()));
        }
        i += 1;
    }
    assert(m.deep_view().take(i as int) =~= m.deep_view());
    out
}

/// Once a prefix fails, the whole sequence of members fails with the same
/// error.
pub proof fn lemma_each_fails<T>(
    m: Members,
    f: spec_fn(JsonView) -> Result<T, DecodeError>,
    n: int,
)
    requires
        0 <= n <= m.len(),
        each(m.take(n), f) is Err,
    ensures
        each(m, f) == each(m.take(n), f),
    decreases m.len() - n,
{
    if n < m.len() {
        assert(m.take(n + 1).drop_last() =~= m.take(n));
        lemma_each_fails(m, f, n + 1);
    } else {
        assert(m.take(n) =~= m);
    }
}

/// Reads every member's value with `f`.
pub(crate) fn read_each<T: DeepView, F: Fn(&Json) -> Result<T, DecodeError>>(
    m: &Vec<(String, Json)>,
    f: F,
    Ghost(g): Ghost<spec_fn(JsonView) -> Result<T::V, DecodeError>>,
) -> (r: Result<Vec<(String, T)>, DecodeError>)
    requires
        forall|j: &Json| f.requires((j,)),
        forall|j: &Json, out: Result<T, DecodeError>| f.ensures((j,), out) ==> lift(out) == g(j@),
    ensures
        lift(r) == each(m.deep_view(), g),
{
    let mut out: Vec<(String, T)> = Vec::new();
    let mut i: usize = 0;
    proof {
        assert(m.deep_view().take(0).len() == 0);
        assert(out.deep_view() =~= Seq::<(Seq<char>, T::V)>::empty());
    }
    while i < m.len()
        invariant
            i <= m.len(),
            forall|j: &Json| f.requires((j,)),
            forall|j: &Json, out: Result<T, DecodeError>|
                f.ensures((j,), out) ==> lift(out) == g(j@),
            each(m.deep_view().take(i as int), g) == Ok::<Seq<(Seq<char>, T::V)>, DecodeError>(
                out.deep_view(),
            ),
        decreases m.len() - i,
    {
        let ghost before = out.deep_view();
        let ghost view = m.deep_view();
        proof {
            assert(view.take(i as int + 1).drop_last() =~= view.take(i as int));
            assert(view.take(i as int + 1).last() == m@[i as int].deep_view());
        }
        match f(&m[i].1) {
            Ok(t) => {
                let key = m[i].0.clone();
                out.push((key, t));
                assert(out.deep_view() =~= before.push((m@[i as int].0@, t.deep_view())));
            },
            Err(e) => {
                proof {
                    lemma_each_fails(view, g, i as int + 1);
                }
                return Err(e);
            },
        }
        i += 1;
    }
    assert(m.deep_view().take(i as int) =~= m.deep_view());
    Ok(out)
}

/// Writes every keyed value with `f`, each under its key.
pub(crate) fn write_each<T: DeepView, F: Fn(&T) -> Json>(
    entries: &Vec<(String, T)>,
    f: F,
    Ghost(g): Ghost<spec_fn(T::V) -> JsonView>,
) -> (r: Vec<(String, Json)>)
    requires
        forall|t: &T| f.requires((t,)),
        forall|t: &T, out: Json| f.ensures((t,), out) ==> out@ == g(t.deep_view()),
    ensures
        r.deep_view() == keyed(entries.deep_view(), g),
{
    let mut out: Vec<(String, Json)> = Vec::new();
    let mut i: usize = 0;
    while i < entries.len()
        invariant
            i <= entries.len(),
            forall|t: &T| f.requires((t,)),
            forall|t: &T, out: Json| f.ensures((t,), out) ==> out@ == g(t.deep_view()),
            out@.len() == i,
            forall|k: int|
                0 <= k < i ==> (#[trigger] out@[k]).deep_view() == (
                    entries@[k].0@,
                    g(entries@[k].1.deep_view()),
                ),
        decreases entries.len() - i,
    {
        let key = entries[i].0.clone();
        out.push((key, f(&entries[i].1)));
        i += 1;
    }
    assert(out.deep_view() =~= keyed(entries.deep_view(), g));
    out
}

/// The wire form of a whole number.
pub fn i32_to_json(i: &i32) -> (r: Json)
    ensures
        r@ == i32_json(*i),
{
    Json::Number(Number::Int(*i as i64))
}

/// The wire form of a number.
pub fn number_to_json(n: &Number) -> (r: Json)
    ensures
        r@ == JsonView::Number(n@),
{
    Json::Number(n.clone())
}

/// The wire form of a text.
pub fn text_to_json(s: &String) -> (r: Json)
    ensures
        r@ == JsonView::Str(s@),
{
    Json::Str(s.clone())
}

/// Appends one member.
pub fn push_json(m: &mut Vec<(String, Json)>, name: &str, value: Json)
    ensures
        final(m).deep_view() == old(m).deep_view() + put(name@, value@),
{
    let ghost before = m.deep_view();
    m.push(entry(name, value));
    assert(m.deep_view() =~= before + put(name@, value@));
}

/// Appends one member where there is a value.
pub fn push_opt_json(m: &mut Vec<(String, Json)>, name: &str, value: Option<Json>)
    ensures
        final(m).deep_view() == old(m).deep_view() + put_opt(name@, value.deep_view()),
{
    let ghost before = m.deep_view();
    match value {
        Some(v) => {
            m.push(entry(name, v));
            assert(m.deep_view() =~= before + put_opt(name@, Some(v@)));
        },
        None => {
            assert(m.deep_view() =~= before + put_opt(name@, None));
        },
    }
}

/// Appends a text under `name`.
pub fn push_text(m: &mut Vec<(String, Json)>, name: &str, text: &String)
    ensures
        final(m).deep_view() == old(m).deep_view() + put(name@, JsonView::Str(text@)),
{
    push_json(m, name, Json::Str(text.clone()));
}

/// Appends a text under `name` where there is one.
pub fn push_opt_text(m: &mut Vec<(String, Json)>, name: &str, text: &Option<String>)
    ensures
        final(m).deep_view() == old(m).deep_view() + put_opt(
            name@,
            opt_text_json(text.deep_view()),
        ),
{
    match text {
        Some(s) => push_opt_json(m, name, Some(Json::Str(s.clone()))),
        None => push_opt_json(m, name, None),
    }
}

/// Appends a truth value under `name`.
pub fn push_flag(m: &mut Vec<(String, Json)>, name: &str, flag: bool)
    ensures
        final(m).deep_view() == old(m).deep_view() + put(name@, JsonView::Bool(flag)),
{
    push_json(m, name, Json::Bool(flag));
}

/// Appends a truth value under `name` where there is one.
pub fn push_opt_flag(m: &mut Vec<(String, Json)>, name: &str, flag: &Option<bool>)
    ensures
        final(m).deep_view() == old(m).deep_view() + put_opt(
            name@,
            opt_flag_json(flag.deep_view()),
        ),
{
    match flag {
        Some(b) => push_opt_json(m, name, Some(Json::Bool(*b))),
        None => push_opt_json(m, name, None),
    }
}

/// Appends a whole number under `name`.
pub fn push_i32(m: &mut Vec<(String, Json)>, name: &str, i: i32)
    ensures
        final(m).deep_view() == old(m).deep_view() + put(name@, i32_json(i)),
{
    push_json(m, name, i32_to_json(&i));
}

/// Appends a number under `name`.
pub fn push_number(m: &mut Vec<(String, Json)>, name: &str, n: &Number)
    ensures
        final(m).deep_view() == old(m).deep_view() + put(name@, JsonView::Number(n@)),
{
    push_json(m, name, Json::Number(n.clone()));
}

/// Appends a number under `name` where there is one.
pub fn push_opt_number(m: &mut Vec<(String, Json)>, name: &str, n: &Option<Number>)
    ensures
        final(m).deep_view() == old(m).deep_view() + put_opt(
            name@,
            opt_number_json(n.deep_view()),
        ),
{
    match n {
        Some(x) => push_opt_json(m, name, Some(Json::Number(x.clone()))),
        None => push_opt_json(m, name, None),
    }
}

/// Appends a sequence of texts under `name`.
pub fn push_texts(m: &mut Vec<(String, Json)>, name: &str, texts: &Vec<String>)
    ensures
        final(m).deep_view() == old(m).deep_view() + put(name@, texts_json(texts.deep_view())),
{
    let items = write_all(texts, text_to_json, Ghost(|s: Seq<char>| JsonView::Str(s)));
    push_json(m, name, Json::array(items));
}

/// Appends a sequence of texts under `name` where there is one.
pub fn push_opt_texts(m: &mut Vec<(String, Json)>, name: &str, texts: &Option<Vec<String>>)
    ensures
        final(m).deep_view() == old(m).deep_view() + put_opt(
            name@,
            opt_texts_json(texts.deep_view()),
        ),
{
    match texts {
        Some(t) => {
            let items = write_all(t, text_to_json, Ghost(|s: Seq<char>| JsonView::Str(s)));
            push_opt_json(m, name, Some(Json::array(items)))
        },
        None => push_opt_json(m, name, None),
    }
}

/// Appends a sequence of whole numbers under `name`.
pub fn push_i32s(m: &mut Vec<(String, Json)>, name: &str, numbers: &Vec<i32>)
    ensures
        final(m).deep_view() == old(m).deep_view() + put(name@, i32s_json(numbers.deep_view())),
{
    let items = write_all(numbers, i32_to_json, Ghost(|i: i32| i32_json(i)));
    push_json(m, name, Json::array(items));
}

/// Appends a sequence of numbers under `name`.
pub fn push_numbers(m: &mut Vec<(String, Json)>, name: &str, numbers: &Vec<Number>)
    ensures
        final(m).deep_view() == old(m).deep_view() + put(
            name@,
            numbers_json(numbers.deep_view()),
        ),
{
    let items = write_all(numbers, number_to_json, Ghost(|n: NumberView| JsonView::Number(n)));
    push_json(m, name, Json::array(items));
}

/// Appends copies of the given members.
pub fn push_members(m: &mut Vec<(String, Json)>, more: &Vec<(String, Json)>)
    ensures
        final(m).deep_view() == old(m).deep_view() + more.deep_view(),
{
    let ghost before = m.deep_view();
    let mut i: usize = 0;
    assert(more.deep_view().take(0) =~= Seq::empty());
    assert(m.deep_view() =~= before + more.deep_view().take(0));
    while i < more.len()
        invariant
            i <= more.len(),
            m.deep_view() == before + more.deep_view().take(i as int),
        decreases more.len() - i,
    {
        let ghost now = m.deep_view();
        let key = more[i].0.clone();
        let value = more[i].1.clone();
        m.push((key, value));
        assert(m.deep_view() =~= now.push(more@[i as int].deep_view()));
        assert(more.deep_view().take(i as int + 1) =~= more.deep_view().take(i as int).push(
            more@[i as int].deep_view(),
        ));
        assert(m.deep_view() =~= before + more.deep_view().take(i as int + 1));
        i += 1;
    }
    assert(more.deep_view().take(i as int) =~= more.deep_view());
}

/// Where reading undoes writing for every item of a sequence, it does so for
/// the sequence.
pub proof fn lemma_all_reads_back<T>(
    items: Seq<T>,
    write: spec_fn(T) -> JsonView,
    read: spec_fn(JsonView) -> Result<T, DecodeError>,
)
    requires
        forall|i: int|
            0 <= i < items.len() ==> read(write(#[trigger] items[i])) == Ok::<T, DecodeError>(
                items[i],
            ),
    ensures
        all(items.map_values(write), read) == Ok::<Seq<T>, DecodeError>(items),
    decreases items.len(),
{
    let written = items.map_values(write);
    if items.len() == 0 {
        assert(items =~= Seq::empty());
    } else {
        let init = items.drop_last();
        assert forall|i: int| 0 <= i < init.len() implies read(write(#[trigger] init[i])) == Ok::<
            T,
            DecodeError,
        >(init[i]) by {
            assert(init[i] == items[i]);
        }
        lemma_all_reads_back(init, write, read);
        assert(written.drop_last() =~= init.map_values(write));
        assert(written.last() == write(items.last()));
        assert(items.last() == items[items.len() - 1]);
        assert(init.push(items.last()) =~= items);
    }
}

/// Where reading undoes writing for every keyed value, it does so for the
/// members that hold them.
pub proof fn lemma_each_reads_back<T>(
    entries: Seq<(Seq<char>, T)>,
    write: spec_fn(T) -> JsonView,
    read: spec_fn(JsonView) -> Result<T, DecodeError>,
)
    requires
        forall|i: int|
            0 <= i < entries.len() ==> read(write((#[trigger] entries[i]).1)) == Ok::<
                T,
                DecodeError,
            >(entries[i].1),
    ensures
        each(keyed(entries, write), read) == Ok::<Seq<(Seq<char>, T)>, DecodeError>(entries),
    decreases entries.len(),
{
    let written = keyed(entries, write);
    if entries.len() == 0 {
        assert(entries =~= Seq::empty());
    } else {
        let init = entries.drop_last();
        assert forall|i: int| 0 <= i < init.len() implies read(write((#[trigger] init[i]).1))
            == Ok::<T, DecodeError>(init[i].1) by {
            assert(init[i] == entries[i]);
        }
        lemma_each_reads_back(init, write, read);
        assert(written.drop_last() =~= keyed(init, write));
        assert(written.last() == (entries.last().0, write(entries.last().1)));
        assert(entries.last() == entries[entries.len() - 1]);
        assert(init.push(entries.last()) =~= entries);
    }
}

/// A sequence of texts is read back from its wire form.
pub proof fn lemma_texts_read_back(texts: Seq<Seq<char>>)
    ensures
        list(texts_json(texts), |x: JsonView| as_text(x)) == Ok::<Seq<Seq<char>>, DecodeError>(
            texts,
        ),
{
    lemma_all_reads_back(texts, |s: Seq<char>| JsonView::Str(s), |x: JsonView| as_text(x));
}

/// A sequence of whole numbers is read back from its wire form.
pub proof fn lemma_i32s_read_back(numbers: Seq<i32>)
    ensures
        list(i32s_json(numbers), |x: JsonView| as_i32(x)) == Ok::<Seq<i32>, DecodeError>(numbers),
{
    lemma_all_reads_back(numbers, |i: i32| i32_json(i), |x: JsonView| as_i32(x));
}

/// A sequence of numbers is read back from its wire form.
pub proof fn lemma_numbers_read_back(numbers: Seq<NumberView>)
    ensures
        list(numbers_json(numbers), |x: JsonView| as_number(x)) == Ok::<
            Seq<NumberView>,
            DecodeError,
        >(numbers),
{
    lemma_all_reads_back(
        numbers,
        |n: NumberView| JsonView::Number(n),
        |x: JsonView| as_number(x),
    );
}

/// Whether no member stands under a known name.
pub open spec fn free_of(m: Members, known: Seq<Seq<char>>) -> bool {
    forall|i: int| 0 <= i < m.len() ==> !known.contains(#[trigger] m[i].0)
}

/// Looking a key up from a place in the first of two runs of members: what
/// the first run has from there on, or else what the second has.
pub proof fn lemma_find_from_concat(a: Members, b: Members, key: Seq<char>, start: int)
    requires
        0 <= start <= a.len(),
    ensures
        find_from(a + b, key, start) == (match find_from(a, key, start) {
            Some(v) => Some(v),
            None => find(b, key),
        }),
    decreases a.len() - start,
{
    if start < a.len() {
        assert((a + b)[start] == a[start]);
        lemma_find_from_concat(a, b, key, start + 1);
    } else {
        lemma_find_shifted(a, b, key, 0);
    }
}

/// Looking a key up in the second of two runs of members is looking it up
/// behind the first.
pub proof fn lemma_find_shifted(a: Members, b: Members, key: Seq<char>, k: int)
    requires
        0 <= k <= b.len(),
    ensures
        find_from(a + b, key, a.len() + k) == find_from(b, key, k),
    decreases b.len() - k,
{
    if k < b.len() {
        assert((a + b)[a.len() + k] == b[k]);
        lemma_find_shifted(a, b, key, k + 1);
    }
}

/// A key is found in two runs of members where the first run has it, or
/// else where the second has it.
pub broadcast proof fn lemma_find_concat(a: Members, b: Members, key: Seq<char>)
    ensures
        #[trigger] find(a + b, key) == (match find(a, key) {
            Some(v) => Some(v),
            None => find(b, key),
        }),
{
    lemma_find_from_concat(a, b, key, 0);
}

/// Whether every member stands under a known name.
pub open spec fn all_known(m: Members, known: Seq<Seq<char>>) -> bool {
    forall|i: int| 0 <= i < m.len() ==> known.contains(#[trigger] m[i].0)
}

/// Two runs of members under known names make one.
pub broadcast proof fn lemma_known_concat(a: Members, b: Members, known: Seq<Seq<char>>)
    requires
        all_known(a, known),
        all_known(b, known),
    ensures
        #[trigger] all_known(a + b, known),
{
    assert forall|i: int| 0 <= i < (a + b).len() implies known.contains(#[trigger] (a + b)[i].0) by {
        if i < a.len() {
            assert((a + b)[i] == a[i]);
        } else {
            assert((a + b)[i] == b[i - a.len()]);
        }
    }
}

/// One member under a known name, or none, is a run of members under known
/// names.
pub broadcast proof fn lemma_known_put(name: Seq<char>, value: JsonView, known: Seq<Seq<char>>)
    requires
        known.contains(name),
    ensures
        #[trigger] all_known(put(name, value), known),
{
}

/// One member under a known name where there is a value is a run of members
/// under known names.
pub broadcast proof fn lemma_known_put_opt(
    name: Seq<char>,
    value: Option<JsonView>,
    known: Seq<Seq<char>>,
)
    requires
        known.contains(name),
    ensures
        #[trigger] all_known(put_opt(name, value), known),
{
}

/// A key is found in one member where it is the member's name.
pub broadcast proof fn lemma_find_put(name: Seq<char>, value: JsonView, key: Seq<char>)
    ensures
        #[trigger] find(put(name, value), key) == (if name == key {
            Some(value)
        } else {
            None
        }),
{
    reveal_with_fuel(find_from, 2);
}

/// A key is found in a member that may be absent where it is the member's
/// name and the member is there.
pub broadcast proof fn lemma_find_put_opt(name: Seq<char>, value: Option<JsonView>, key: Seq<char>)
    ensures
        #[trigger] find(put_opt(name, value), key) == (if name == key {
            value
        } else {
            None
        }),
{
    reveal_with_fuel(find_from, 2);
}

pub broadcast group group_members {
    lemma_find_concat,
    lemma_find_put,
    lemma_find_put_opt,
    lemma_known_concat,
    lemma_known_put,
    lemma_known_put_opt,
}

/// A known name is not found among members that are free of known names.
pub proof fn lemma_find_unknown(m: Members, known: Seq<Seq<char>>, key: Seq<char>, start: int)
    requires
        free_of(m, known),
        known.contains(key),
        0 <= start,
    ensures
        find_from(m, key, start) is None,
    decreases m.len() - start,
{
    if start < m.len() {
        assert(!known.contains(m[start].0));
        lemma_find_unknown(m, known, key, start + 1);
    }
}

/// What is kept as additional is every member under a name that is not
/// known, and nothing else.
pub proof fn lemma_rest_is_the_unknown(m: Members, known: Seq<Seq<char>>)
    ensures
        rest(m, known) == m.filter(|e: (Seq<char>, JsonView)| !known.contains(e.0)),
    decreases m.len(),
{
    reveal(Seq::filter);
    if m.len() > 0 {
        lemma_rest_is_the_unknown(m.drop_last(), known);
    }
}

/// Members written after the named fields of a record are read back as its
/// additional members: where every name in `named` is known and none in
/// `extra` is, what is kept of the two together is `extra`.
pub proof fn lemma_rest_of_written(named: Members, extra: Members, known: Seq<Seq<char>>)
    requires
        all_known(named, known),
        free_of(extra, known),
    ensures
        rest(named + extra, known) == extra,
    decreases extra.len(), named.len(),
{
    let both = named + extra;
    if extra.len() > 0 {
        assert(both.drop_last() =~= named + extra.drop_last());
        assert(both.last() == extra.last());
        lemma_rest_of_written(named, extra.drop_last(), known);
        assert(extra.drop_last().push(extra.last()) =~= extra);
    } else if named.len() > 0 {
        assert(both.drop_last() =~= named.drop_last() + extra);
        assert(both.last() == named.last());
        assert(named.last() == named[named.len() - 1]);
        assert forall|i: int| 0 <= i < named.drop_last().len() implies known.contains(
            #[trigger] named.drop_last()[i].0,
        ) by {
            assert(named.drop_last()[i] == named[i]);
        }
        lemma_rest_of_written(named.drop_last(), extra, known);
    } else {
        assert(both =~= Seq::empty());
        assert(extra =~= Seq::empty());
    }
}

} // verus!
