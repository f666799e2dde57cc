//! Reading the reply to a turn submission and drawing out of it what a caller
//! shows: the texts, parts of any one kind, and the errors that events carry.
//!
//! Whatever is drawn out keeps the order of the batch: the events in their
//! order, and within an event its parts in theirs. Nothing is sorted.

use vstd::prelude::*;
use crate::error::{malformed, outcome, DecodeError, ProtocolError};
use crate::event::{AgentResponse, AgentResponseView};
use crate::json::{Json, JsonView};
use crate::part::{PartKind, Parts, PartsView};
use crate::record::{items_of, list, read_all};
use crate::text::parsed;

verus! {

/// The events that a wire value holds: an array, each item of it an event.
pub open spec fn read_events(j: JsonView) -> Result<Seq<AgentResponseView>, DecodeError> {
    list(j, |x: JsonView| AgentResponseView::read(x))
}

/// The events that a parsed body holds. A body that did not parse is a
/// failure of syntax.
pub open spec fn read_body(body: Option<JsonView>) -> Result<Seq<AgentResponseView>, DecodeError> {
    match body {
        Some(j) => read_events(j),
        None => Err(DecodeError::Syntax),
    }
}

/// Reads a structured value as the events of one run. It succeeds exactly
/// where the value is an array of events; otherwise the response is
/// malformed, with the first structural failure as the cause.
pub fn decode_run_response(j: &Json) -> (r: Result<Vec<AgentResponse>, ProtocolError>)
    ensures
        outcome(r) == malformed(read_events(j@)),
{
    let items = match items_of(j) {
        Ok(items) => items,
        Err(cause) => {
            return Err(ProtocolError::MalformedResponse { cause });
        },
    };
    match read_all(items, AgentResponse::decode, Ghost(|x: JsonView| AgentResponseView::read(x))) {
        Ok(events) => Ok(events),
        Err(cause) => Err(ProtocolError::MalformedResponse { cause }),
    }
}

/// Reads the body of a reply as the events of one run. The body is parsed
/// as JSON and the value read as [`decode_run_response`] reads it; a body
/// that is no JSON is malformed with [`DecodeError::Syntax`] as the cause.
pub fn parse_run_response(raw_body: &str) -> (r: Result<Vec<AgentResponse>, ProtocolError>)
    ensures
        outcome(r) == malformed(read_body(parsed(raw_body@))),
{
    match Json::parse(raw_body) {
        Ok(j) => decode_run_response(&j),
        Err(_) => Err(ProtocolError::MalformedResponse { cause: DecodeError::Syntax }),
    }
}

/// All parts of a batch: those of the first event in their order, then those
/// of the second, and so on.
pub open spec fn all_parts(events: Seq<AgentResponseView>) -> Seq<PartsView> {
    events.map_values(|e: AgentResponseView| e.content.parts).flatten()
}

/// The text of a text part, `None` for a part of any other kind.
pub open spec fn text_of(p: PartsView) -> Option<Seq<char>> {
    match p {
        PartsView::Text { text } => Some(text),
        _ => None,
    }
}

/// The texts of a batch: the text of every text part, in the order of
/// [`all_parts`].
pub open spec fn texts(events: Seq<AgentResponseView>) -> Seq<Seq<char>> {
    all_parts(events).filter_map(|p: PartsView| text_of(p))
}

/// The parts of one kind of a batch, in the order of [`all_parts`].
pub open spec fn parts_of_kind(events: Seq<AgentResponseView>, kind: PartKind) -> Seq<PartsView> {
    all_parts(events).filter(|p: PartsView| p.kind() == kind)
}

/// The parts of a batch grow by the parts of the event that is added.
pub proof fn lemma_all_parts_step(events: Seq<AgentResponseView>, i: int)
    requires
        0 <= i < events.len(),
    ensures
        all_parts(events.take(i + 1)) == all_parts(events.take(i)) + events[i].content.parts,
{
    let f = |e: AgentResponseView| e.content.parts;
    assert(events.take(i + 1).map_values(f) =~= events.take(i).map_values(f).push(f(events[i])));
    events.take(i).map_values(f).lemma_flatten_push(f(events[i]));
}

/// The texts of a batch of events, in order: for every event in turn, for
/// every part of its content in turn, the text where the part is a text
/// part. Parts of other kinds are passed over.
pub fn extract_text(events: &Vec<AgentResponse>) -> (r: Vec<String>)
    ensures
        r.deep_view() == texts(events.deep_view()),
{
    let ghost f = |p: PartsView| text_of(p);
    let ghost model = events.deep_view();
    let mut out: Vec<String> = Vec::new();
    let mut i: usize = 0;
    proof {
        assert(model.take(0).map_values(|e: AgentResponseView| e.content.parts) =~= Seq::empty());
        assert(all_parts(model.take(0)) =~= Seq::empty());
        assert(out.deep_view() =~= Seq::<Seq<char>>::empty());
    }
    while i < events.len()
        invariant
            i <= events.len(),
            model == events.deep_view(),
            f == (|p: PartsView| text_of(p)),
            out.deep_view() == all_parts(model.take(i as int)).filter_map(f),
        decreases events.len() - i,
    {
        let parts = &events[i].content.parts;
        let ghost before = all_parts(model.take(i as int));
        let ghost these = parts.deep_view();
        let mut k: usize = 0;
        proof {
            assert(these == model[i as int].content.parts);
            assert(before + these.take(0) =~= before);
        }
        while k < parts.len()
            invariant
                k <= parts.len(),
                these == parts.deep_view(),
                f == (|p: PartsView| text_of(p)),
                out.deep_view() == (before + these.take(k as int)).filter_map(f),
            decreases parts.len() - k,
        {
            let ghost so_far = out.deep_view();
            proof {
                let grown = before + these.take(k as int + 1);
                assert(grown.drop_last() =~= before + these.take(k as int));
                assert(grown.last() == parts@[k as int]@);
            }
            match &parts[k] {
                Parts::Text { text } => {
                    out.push(text.clone());
                    assert(out.deep_view() =~= so_far + seq![text@]);
                },
                _ => {},
            }
            k += 1;
        }
        proof {
            assert(these.take(k as int) =~= these);
            lemma_all_parts_step(model, i as int);
        }
        i += 1;
    }
    assert(model.take(i as int) =~= model);
    out
}

/// The parts of one kind of a batch of events, in order: for every event in
/// turn, for every part of its content in turn, a copy of the part where it
/// is of the given kind.
pub fn extract_parts(events: &Vec<AgentResponse>, kind: PartKind) -> (r: Vec<Parts>)
    ensures
        r.deep_view() == parts_of_kind(events.deep_view(), kind),
{
    let ghost f = |p: PartsView| p.kind() == kind;
    let ghost model = events.deep_view();
    let mut out: Vec<Parts> = Vec::new();
    let mut i: usize = 0;
    proof {
        reveal(Seq::filter);
        assert(model.take(0).map_values(|e: AgentResponseView| e.content.parts) =~= Seq::empty());
        assert(all_parts(model.take(0)) =~= Seq::empty());
        assert(out.deep_view() =~= Seq::<PartsView>::empty());
    }
    while i < events.len()
        invariant
            i <= events.len(),
            model == events.deep_view(),
            f == (|p: PartsView| p.kind() == kind),
            out.deep_view() == all_parts(model.take(i as int)).filter(f),
        decreases events.len() - i,
    {
        let parts = &events[i].content.parts;
        let ghost before = all_parts(model.take(i as int));
        let ghost these = parts.deep_view();
        let mut k: usize = 0;
        proof {
            assert(these == model[i as int].content.parts);
            assert(before + these.take(0) =~= before);
        }
        while k < parts.len()
            invariant
                k <= parts.len(),
                these == parts.deep_view(),
                f == (|p: PartsView| p.kind() == kind),
                out.deep_view() == (before + these.take(k as int)).filter(f),
            decreases parts.len() - k,
        {
            let ghost so_far = out.deep_view();
            proof {
                reveal(Seq::filter);
                let grown = before + these.take(k as int + 1);
                assert(grown.drop_last() =~= before + these.take(k as int));
                assert(grown.last() == parts@[k as int]@);
            }
            if parts[k].kind() == kind {
                out.push(parts[k].clone());
                assert(out.deep_view() =~= so_far.push(parts@[k as int]@));
            }
            k += 1;
        }
        proof {
            assert(these.take(k as int) =~= these);
            lemma_all_parts_step(model, i as int);
        }
        i += 1;
    }
    assert(model.take(i as int) =~= model);
    out
}

/// All parts of a batch as they stand in memory, in the order of
/// [`all_parts`].
pub open spec fn held_parts(events: Seq<AgentResponse>) -> Seq<Parts> {
    events.map_values(|e: AgentResponse| e.content.parts@).flatten()
}

/// What is drawn from a batch by a caller's choice: `pick` is asked once of
/// every part, in the order of the batch, and what it gave for each part is
/// kept in that order where it gave something.
pub open spec fn drawn<V, F: Fn(&Parts) -> Option<V>>(
    events: Seq<AgentResponse>,
    pick: F,
    result: Seq<V>,
) -> bool {
    exists|picked: Seq<Option<V>>|
        {
            &&& picked.len() == held_parts(events).len()
            &&& forall|i: int|
                0 <= i < picked.len() ==> pick.ensures(
                    (&held_parts(events)[i],),
                    #[trigger] picked[i],
                )
            &&& result == picked.filter_map(|o: Option<V>| o)
        }
}

/// Draws from a batch of events whatever `pick` makes of its parts: for
/// every event in turn, for every part of its content in turn, the value
/// that `pick` gives for the part, where it gives one.
pub fn extract_with<V, F: Fn(&Parts) -> Option<V>>(events: &Vec<AgentResponse>, pick: F) -> (r: Vec<
    V,
>)
    requires
        forall|p: &Parts| pick.requires((p,)),
    ensures
        drawn(events@, pick, r@),
{
    let ghost id = |o: Option<V>| o;
    let ghost parts_of = |e: AgentResponse| e.content.parts@;
    let ghost mut picked: Seq<Option<V>> = Seq::empty();
    let mut out: Vec<V> = Vec::new();
    let mut i: usize = 0;
    proof {
        assert(events@.take(0).map_values(parts_of) =~= Seq::empty());
        assert(held_parts(events@.take(0)) =~= Seq::empty());
        assert(out@ =~= picked.filter_map(id));
    }
    while i < events.len()
        invariant
            i <= events.len(),
            forall|p: &Parts| pick.requires((p,)),
            id == (|o: Option<V>| o),
            parts_of == (|e: AgentResponse| e.content.parts@),
            picked.len() == held_parts(events@.take(i as int)).len(),
            forall|n: int|
                0 <= n < picked.len() ==> pick.ensures(
                    (&held_parts(events@.take(i as int))[n],),
                    #[trigger] picked[n],
                ),
            out@ == picked.filter_map(id),
        decreases events.len() - i,
    {
        let parts = &events[i].content.parts;
        let ghost before = held_parts(events@.take(i as int));
        let mut k: usize = 0;
        proof {
            assert(before + parts@.take(0) =~= before);
        }
        while k < parts.len()
            invariant
                k <= parts.len(),
                forall|p: &Parts| pick.requires((p,)),
                id == (|o: Option<V>| o),
                picked.len() == (before + parts@.take(k as int)).len(),
                forall|n: int|
                    0 <= n < picked.len() ==> pick.ensures(
                        (&(before + parts@.take(k as int))[n],),
                        #[trigger] picked[n],
                    ),
                out@ == picked.filter_map(id),
            decreases parts.len() - k,
        {
            let ghost so_far = picked;
            let ghost seen = before + parts@.take(k as int);
            let ghost grown = before + parts@.take(k as int + 1);
            let chosen = pick(&parts[k]);
            proof {
                picked = so_far.push(chosen);
                assert(grown =~= seen.push(parts@[k as int]));
                assert(picked.drop_last() =~= so_far);
                assert forall|n: int| 0 <= n < picked.len() implies pick.ensures(
                    (&grown[n],),
                    #[trigger] picked[n],
                ) by {
                    if n < so_far.len() {
                        assert(grown[n] == seen[n]);
                        assert(picked[n] == so_far[n]);
                    }
                }
            }
            match chosen {
                Some(v) => {
                    out.push(v);
                    assert(out@ =~= so_far.filter_map(id) + seq![v]);
                },
                None => {},
            }
            k += 1;
        }
        proof {
            assert(parts@.take(k as int) =~= parts@);
            assert(events@.take(i as int + 1).map_values(parts_of) =~= events@.take(
                i as int,
            ).map_values(parts_of).push(parts_of(events@[i as int])));
            events@.take(i as int).map_values(parts_of).lemma_flatten_push(
                parts_of(events@[i as int]),
            );
        }
        i += 1;
    }
    assert(events@.take(i as int) =~= events@);
    out
}

/// The error that one event carries.
#[derive(Clone, Debug, PartialEq)]
pub struct EventError {
    /// The place of the event in its batch, from 0.
    pub index: usize,
    pub code: Option<String>,
    pub message: Option<String>,
}

/// The model of an [`EventError`].
pub struct EventErrorView {
    pub index: int,
    pub code: Option<Seq<char>>,
    pub message: Option<Seq<char>>,
}

impl View for EventError {
    type V = EventErrorView;

    open spec fn view(&self) -> EventErrorView {
        EventErrorView {
            index: self.index as int,
            code: self.code.deep_view(),
            message: self.message.deep_view(),
        }
    }
}

impl DeepView for EventError {
    type V = EventErrorView;

    open spec fn deep_view(&self) -> EventErrorView {
        self@
    }
}

/// The error that the event at `index` carries: its code and its message,
/// where it has at least one of the two.
pub open spec fn error_at(events: Seq<AgentResponseView>, index: int) -> Option<EventErrorView> {
    if events[index].error_code is Some || events[index].error_message is Some {
        Some(
            EventErrorView {
                index,
                code: events[index].error_code,
                message: events[index].error_message,
            },
        )
    } else {
        None
    }
}

/// The errors of a batch: for each event that carries one, in the order of
/// the events.
pub open spec fn errors(events: Seq<AgentResponseView>) -> Seq<EventErrorView> {
    Seq::new(events.len(), |i: int| i).filter_map(|i: int| error_at(events, i))
}

/// A copy of a text that may be absent.
fn copy_text(text: &Option<String>) -> (r: Option<String>)
    ensures
        r.deep_view() == text.deep_view(),
{
    match text {
        Some(s) => Some(s.clone()),
        None => None,
    }
}

/// The errors that the events of a batch carry, in the order of the events.
pub fn extract_errors(events: &Vec<AgentResponse>) -> (r: Vec<EventError>)
    ensures
        r.deep_view() == errors(events.deep_view()),
{
    let ghost model = events.deep_view();
    let ghost places = Seq::new(model.len(), |i: int| i);
    let ghost f = |i: int| error_at(model, i);
    let mut out: Vec<EventError> = Vec::new();
    let mut i: usize = 0;
    proof {
        assert(places.take(0) =~= Seq::empty());
        assert(out.deep_view() =~= Seq::<EventErrorView>::empty());
    }
    while i < events.len()
        invariant
            i <= events.len(),
            model == events.deep_view(),
            places == Seq::new(model.len(), |i: int| i),
            f == (|i: int| error_at(model, i)),
            out.deep_view() == places.take(i as int).filter_map(f),
        decreases events.len() - i,
    {
        let ghost so_far = out.deep_view();
        proof {
            assert(places.take(i as int + 1).drop_last() =~= places.take(i as int));
            assert(places.take(i as int + 1).last() == i as int);
            assert(model[i as int] == events@[i as int]@);
        }
        let event = &events[i];
        if event.error_code.is_some() || event.error_message.is_some() {
            let e = EventError {
                index: i,
                code: copy_text(&event.error_code),
                message: copy_text(&event.error_message),
            };
            out.push(e);
            assert(out.deep_view() =~= so_far + seq![e@]);
        }
        i += 1;
    }
    assert(places.take(i as int) =~= places);
    out
}

/// What a caller shows of one reply: the texts, and beside them the errors.
#[derive(Clone, Debug, PartialEq)]
pub struct Aggregate {
    pub texts: Vec<String>,
    pub errors: Vec<EventError>,
}

/// Draws from a batch of events its texts and its errors. The two do not
/// bear on each other: an event's error removes no text of any event, and a
/// text hides no error.
pub fn aggregate(events: &Vec<AgentResponse>) -> (r: Aggregate)
    ensures
        r.texts.deep_view() == texts(events.deep_view()),
        r.errors.deep_view() == errors(events.deep_view()),
{
    Aggregate { texts: extract_text(events), errors: extract_errors(events) }
}

/// The texts of a sequence of parts are the texts of its text parts: to draw
/// the texts is to draw the parts of kind text and take the text of each.
pub proof fn lemma_texts_of_text_parts(parts: Seq<PartsView>)
    ensures
        parts.filter_map(|p: PartsView| text_of(p)) == parts.filter(
            |p: PartsView| p.kind() == PartKind::Text,
        ).map_values(|p: PartsView| text_of(p)->Some_0),
    decreases parts.len(),
{
    reveal(Seq::filter);
    let f = |p: PartsView| text_of(p);
    let is_text = |p: PartsView| p.kind() == PartKind::Text;
    let the_text = |p: PartsView| text_of(p)->Some_0;
    if parts.len() == 0 {
        assert(parts.filter_map(f) =~= parts.filter(is_text).map_values(the_text));
    } else {
        lemma_texts_of_text_parts(parts.drop_last());
        let init = parts.drop_last().filter(is_text);
        if is_text(parts.last()) {
            assert(init.push(parts.last()).map_values(the_text) =~= init.map_values(the_text)
                + seq![the_text(parts.last())]);
        }
        assert(parts.filter_map(f) =~= parts.filter(is_text).map_values(the_text));
    }
}

/// What [`extract_text`] returns is what [`extract_parts`] returns for the
/// kind text, with the text taken of each part.
pub proof fn lemma_texts_are_parts_of_kind_text(events: Seq<AgentResponseView>)
    ensures
        texts(events) == parts_of_kind(events, PartKind::Text).map_values(
            |p: PartsView| text_of(p)->Some_0,
        ),
{
    lemma_texts_of_text_parts(all_parts(events));
}

/// The texts of two sequences of parts, one after the other, are the texts
/// of the first followed by the texts of the second.
pub proof fn lemma_part_texts_concat(first: Seq<PartsView>, second: Seq<PartsView>)
    ensures
        (first + second).filter_map(|p: PartsView| text_of(p)) == first.filter_map(
            |p: PartsView| text_of(p),
        ) + second.filter_map(|p: PartsView| text_of(p)),
    decreases second.len(),
{
    let f = |p: PartsView| text_of(p);
    if second.len() == 0 {
        assert(first + second =~= first);
        assert(first.filter_map(f) + second.filter_map(f) =~= first.filter_map(f));
    } else {
        lemma_part_texts_concat(first, second.drop_last());
        assert((first + second).drop_last() =~= first + second.drop_last());
        assert((first + second).last() == second.last());
        assert((first + second).filter_map(f) =~= first.filter_map(f) + second.filter_map(f));
    }
}

/// Order is kept across batches: the texts of one batch followed by another
/// are the texts of the first followed by the texts of the second.
pub proof fn lemma_texts_concat(first: Seq<AgentResponseView>, second: Seq<AgentResponseView>)
    ensures
        texts(first + second) == texts(first) + texts(second),
{
    let parts = |e: AgentResponseView| e.content.parts;
    assert((first + second).map_values(parts) =~= first.map_values(parts) + second.map_values(
        parts,
    ));
    vstd::seq_lib::lemma_flatten_concat(first.map_values(parts), second.map_values(parts));
    lemma_part_texts_concat(all_parts(first), all_parts(second));
}

/// The texts of a batch of one event are the texts of its parts, and a batch
/// without events has none.
pub proof fn lemma_texts_of_one(event: AgentResponseView)
    ensures
        texts(seq![event]) == event.content.parts.filter_map(|p: PartsView| text_of(p)),
        texts(Seq::empty()) == Seq::<Seq<char>>::empty(),
{
    let parts = |e: AgentResponseView| e.content.parts;
    assert(seq![event].map_values(parts) =~= seq![event.content.parts]);
    seq![event.content.parts].lemma_flatten_one_element();
    assert(Seq::<AgentResponseView>::empty().map_values(parts) =~= Seq::empty());
    assert(all_parts(Seq::empty()) =~= Seq::empty());
}

} // verus!
