//! Grounding: what ties spans of generated text to the sources they rest on.

use vstd::prelude::*;
use crate::error::{lift, DecodeError};
use crate::json::{find, Json, JsonView, Members, Number, NumberView};
use crate::record::{
    field, get_i32, get_i32s, get_numbers, get_opt_number, get_opt_text, get_text, get_texts,
    i32_json, i32s_json, items_of, list, maybe, numbers_json, opt, opt_number, opt_number_json,
    opt_text, opt_text_json, push_i32, push_i32s, push_json, push_numbers, push_opt_json,
    push_opt_number, push_opt_text, push_text, push_texts, put, put_opt, read_all, req, req_i32,
    req_i32s, req_numbers, req_text, req_texts, texts_json, write_all, group_members,
    lemma_all_reads_back, lemma_i32s_read_back, lemma_numbers_read_back, lemma_texts_read_back,
};

verus! {

/// A citation of a retrieved context.
#[derive(Clone, Debug, PartialEq)]
pub struct RetrievedContext {
    pub text: String,
    pub title: String,
    pub uri: String,
}

/// The model of [`RetrievedContext`].
pub struct RetrievedContextView {
    pub text: Seq<char>,
    pub title: Seq<char>,
    pub uri: Seq<char>,
}

impl View for RetrievedContext {
    type V = RetrievedContextView;

    open spec fn view(&self) -> RetrievedContextView {
        RetrievedContextView {
            text: self.text@,
            title: self.title@,
            uri: self.uri@,
        }
    }
}

impl DeepView for RetrievedContext {
    type V = RetrievedContextView;

    open spec fn deep_view(&self) -> RetrievedContextView {
        self@
    }
}

impl RetrievedContextView {
    /// The record that an object's members hold. The fields are read in
    /// the order in which the record lists them, and the first that
    /// cannot be read fails the record with its error.
    pub open spec fn read_members(m: Members) -> Result<RetrievedContextView, DecodeError> {
        let text = req_text(m, "text"@, "text"@);
        let title = req_text(m, "title"@, "title"@);
        let uri = req_text(m, "uri"@, "uri"@);
        if text is Err {
            Err(text->Err_0)
        } else if title is Err {
            Err(title->Err_0)
        } else if uri is Err {
            Err(uri->Err_0)
        } else {
            Ok(
                RetrievedContextView {
                    text: text->Ok_0,
                    title: title->Ok_0,
                    uri: uri->Ok_0,
                },
            )
        }
    }

    /// The record that a wire value holds.
    pub open spec fn read(j: JsonView) -> Result<RetrievedContextView, DecodeError> {
        match j {
            JsonView::Object(m) => RetrievedContextView::read_members(m),
            _ => Err(DecodeError::NotAnObject),
        }
    }

    /// The members of the wire form, in the order of the fields. A field
    /// that holds nothing is left out.
    pub open spec fn wire_members(self) -> Members {
        Seq::<(Seq<char>, JsonView)>::empty()
            + put("text"@, JsonView::Str(self.text))
            + put("title"@, JsonView::Str(self.title))
            + put("uri"@, JsonView::Str(self.uri))
    }

    /// The wire form of the record.
    pub open spec fn wire(self) -> JsonView {
        JsonView::Object(self.wire_members())
    }
}

impl RetrievedContext {
    /// Reads a wire value as this record.
    pub fn decode(j: &Json) -> (r: Result<RetrievedContext, DecodeError>)
        ensures
            lift(r) == RetrievedContextView::read(j@),
    {
        let m = match j.as_object() {
            Some(m) => m,
            None => {
                return Err(DecodeError::NotAnObject);
            },
        };
        let text = get_text(m, "text", "text")?;
        let title = get_text(m, "title", "title")?;
        let uri = get_text(m, "uri", "uri")?;
        Ok(RetrievedContext { text, title, uri })
    }

    /// Writes this record in its wire form.
    pub fn encode(&self) -> (r: Json)
        ensures
            r@ == self@.wire(),
    {
        let mut m: Vec<(String, Json)> = Vec::new();
        assert(m.deep_view() =~= Seq::<(Seq<char>, JsonView)>::empty());
        push_text(&mut m, "text", &self.text);
        push_text(&mut m, "title", &self.title);
        push_text(&mut m, "uri", &self.uri);
        Json::object(m)
    }
}

/// Every [`RetrievedContext`] is read back from its wire form.
pub proof fn lemma_retrieved_context_reads_back(record: RetrievedContextView)
    ensures
        RetrievedContextView::read(record.wire()) == Ok::<
            RetrievedContextView,
            DecodeError,
        >(record),
{
    broadcast use group_members;
    reveal_strlit("text");
    reveal_strlit("title");
    reveal_strlit("uri");
    assert("text"@[1] == 'e');
    assert("title"@[1] == 'i');
    assert("text"@[0] == 't');
    assert("uri"@[0] == 'u');
    assert("title"@[0] == 't');
    let m = record.wire_members();
    assert(find(m, "text"@) == Some(JsonView::Str(record.text)));
    let text = req_text(m, "text"@, "text"@);
    assert(text == Ok::<Seq<char>, DecodeError>(record.text));
    assert(find(m, "title"@) == Some(JsonView::Str(record.title)));
    let title = req_text(m, "title"@, "title"@);
    assert(title == Ok::<Seq<char>, DecodeError>(record.title));
    assert(find(m, "uri"@) == Some(JsonView::Str(record.uri)));
    let uri = req_text(m, "uri"@, "uri"@);
    assert(uri == Ok::<Seq<char>, DecodeError>(record.uri));
    assert(RetrievedContextView::read_members(m) == Ok::<
        RetrievedContextView,
        DecodeError,
    >(record));
}

/// A citation of a page on the web.
#[derive(Clone, Debug, PartialEq)]
pub struct WebContext {
    pub domain: String,
    pub title: String,
    pub uri: String,
}

/// The model of [`WebContext`].
pub struct WebContextView {
    pub domain: Seq<char>,
    pub title: Seq<char>,
    pub uri: Seq<char>,
}

impl View for WebContext {
    type V = WebContextView;

    open spec fn view(&self) -> WebContextView {
        WebContextView {
            domain: self.domain@,
            title: self.title@,
            uri: self.uri@,
        }
    }
}

impl DeepView for WebContext {
    type V = WebContextView;

    open spec fn deep_view(&self) -> WebContextView {
        self@
    }
}

impl WebContextView {
    /// The record that an object's members hold. The fields are read in
    /// the order in which the record lists them, and the first that
    /// cannot be read fails the record with its error.
    pub open spec fn read_members(m: Members) -> Result<WebContextView, DecodeError> {
        let domain = req_text(m, "domain"@, "domain"@);
        let title = req_text(m, "title"@, "title"@);
        let uri = req_text(m, "uri"@, "uri"@);
        if domain is Err {
            Err(domain->Err_0)
        } else if title is Err {
            Err(title->Err_0)
        } else if uri is Err {
            Err(uri->Err_0)
        } else {
            Ok(
                WebContextView {
                    domain: domain->Ok_0,
                    title: title->Ok_0,
                    uri: uri->Ok_0,
                },
            )
        }
    }

    /// The record that a wire value holds.
    pub open spec fn read(j: JsonView) -> Result<WebContextView, DecodeError> {
        match j {
            JsonView::Object(m) => WebContextView::read_members(m),
            _ => Err(DecodeError::NotAnObject),
        }
    }

    /// The members of the wire form, in the order of the fields. A field
    /// that holds nothing is left out.
    pub open spec fn wire_members(self) -> Members {
        Seq::<(Seq<char>, JsonView)>::empty()
            + put("domain"@, JsonView::Str(self.domain))
            + put("title"@, JsonView::Str(self.title))
            + put("uri"@, JsonView::Str(self.uri))
    }

    /// The wire form of the record.
    pub open spec fn wire(self) -> JsonView {
        JsonView::Object(self.wire_members())
    }
}

impl WebContext {
    /// Reads a wire value as this record.
    pub fn decode(j: &Json) -> (r: Result<WebContext, DecodeError>)
        ensures
            lift(r) == WebContextView::read(j@),
    {
        let m = match j.as_object() {
            Some(m) => m,
            None => {
                return Err(DecodeError::NotAnObject);
            },
        };
        let domain = get_text(m, "domain", "domain")?;
        let title = get_text(m, "title", "title")?;
        let uri = get_text(m, "uri", "uri")?;
        Ok(WebContext { domain, title, uri })
    }

    /// Writes this record in its wire form.
    pub fn encode(&self) -> (r: Json)
        ensures
            r@ == self@.wire(),
    {
        let mut m: Vec<(String, Json)> = Vec::new();
        assert(m.deep_view() =~= Seq::<(Seq<char>, JsonView)>::empty());
        push_text(&mut m, "domain", &self.domain);
        push_text(&mut m, "title", &self.title);
        push_text(&mut m, "uri", &self.uri);
        Json::object(m)
    }
}

/// Every [`WebContext`] is read back from its wire form.
pub proof fn lemma_web_context_reads_back(record: WebContextView)
    ensures
        WebContextView::read(record.wire()) == Ok::<WebContextView, DecodeError>(record),
{
    broadcast use group_members;
    reveal_strlit("domain");
    reveal_strlit("title");
    reveal_strlit("uri");
    assert("domain"@[0] == 'd');
    assert("title"@[0] == 't');
    assert("uri"@[0] == 'u');
    let m = record.wire_members();
    assert(find(m, "domain"@) == Some(JsonView::Str(record.domain)));
    let domain = req_text(m, "domain"@, "domain"@);
    assert(domain == Ok::<Seq<char>, DecodeError>(record.domain));
    assert(find(m, "title"@) == Some(JsonView::Str(record.title)));
    let title = req_text(m, "title"@, "title"@);
    assert(title == Ok::<Seq<char>, DecodeError>(record.title));
    assert(find(m, "uri"@) == Some(JsonView::Str(record.uri)));
    let uri = req_text(m, "uri"@, "uri"@);
    assert(uri == Ok::<Seq<char>, DecodeError>(record.uri));
    assert(WebContextView::read_members(m) == Ok::<WebContextView, DecodeError>(record));
}

/// One source: a retrieved context, a web page, or (on the wire) both or
/// neither.
#[derive(Clone, Debug, PartialEq)]
pub struct GroundingChunk {
    pub retrieved_context: Option<RetrievedContext>,
    pub web: Option<WebContext>,
}

/// The model of [`GroundingChunk`].
pub struct GroundingChunkView {
    pub retrieved_context: Option<RetrievedContextView>,
    pub web: Option<WebContextView>,
}

impl View for GroundingChunk {
    type V = GroundingChunkView;

    open spec fn view(&self) -> GroundingChunkView {
        GroundingChunkView {
            retrieved_context: self.retrieved_context.deep_view(),
            web: self.web.deep_view(),
        }
    }
}

impl DeepView for GroundingChunk {
    type V = GroundingChunkView;

    open spec fn deep_view(&self) -> GroundingChunkView {
        self@
    }
}

impl GroundingChunkView {
    /// The record that an object's members hold. The fields are read in
    /// the order in which the record lists them, and the first that
    /// cannot be read fails the record with its error.
    pub open spec fn read_members(m: Members) -> Result<GroundingChunkView, DecodeError> {
        let retrieved_context = opt(
            m,
            "retrievedContext"@,
            "retrieved_context"@,
            |x: JsonView| RetrievedContextView::read(x),
        );
        let web = opt(m, "web"@, "web"@, |x: JsonView| WebContextView::read(x));
        if retrieved_context is Err {
            Err(retrieved_context->Err_0)
        } else if web is Err {
            Err(web->Err_0)
        } else {
            Ok(
                GroundingChunkView {
                    retrieved_context: retrieved_context->Ok_0,
                    web: web->Ok_0,
                },
            )
        }
    }

    /// The record that a wire value holds.
    pub open spec fn read(j: JsonView) -> Result<GroundingChunkView, DecodeError> {
        match j {
            JsonView::Object(m) => GroundingChunkView::read_members(m),
            _ => Err(DecodeError::NotAnObject),
        }
    }

    /// The members of the wire form, in the order of the fields. A field
    /// that holds nothing is left out.
    pub open spec fn wire_members(self) -> Members {
        Seq::<(Seq<char>, JsonView)>::empty()
            + put_opt(
                "retrievedContext"@,
                match self.retrieved_context {
                    Some(t) => Some(t.wire()),
                    None => None,
                },
            )
            + put_opt(
                "web"@,
                match self.web {
                    Some(t) => Some(t.wire()),
                    None => None,
                },
            )
    }

    /// The wire form of the record.
    pub open spec fn wire(self) -> JsonView {
        JsonView::Object(self.wire_members())
    }
}

impl GroundingChunk {
    /// Reads a wire value as this record.
    pub fn decode(j: &Json) -> (r: Result<GroundingChunk, DecodeError>)
        ensures
            lift(r) == GroundingChunkView::read(j@),
    {
        let m = match j.as_object() {
            Some(m) => m,
            None => {
                return Err(DecodeError::NotAnObject);
            },
        };
        let retrieved_context = match maybe(m, "retrievedContext", "retrieved_context") {
            Some(v) => Some(RetrievedContext::decode(v)?),
            None => None,
        };
        let web = match maybe(m, "web", "web") {
            Some(v) => Some(WebContext::decode(v)?),
            None => None,
        };
        Ok(GroundingChunk { retrieved_context, web })
    }

    /// Writes this record in its wire form.
    pub fn encode(&self) -> (r: Json)
        ensures
            r@ == self@.wire(),
    {
        let mut m: Vec<(String, Json)> = Vec::new();
        assert(m.deep_view() =~= Seq::<(Seq<char>, JsonView)>::empty());
        push_opt_json(
            &mut m,
            "retrievedContext",
            match &self.retrieved_context {
                Some(t) => Some(t.encode()),
                None => None,
            },
        );
        push_opt_json(
            &mut m,
            "web",
            match &self.web {
                Some(t) => Some(t.encode()),
                None => None,
            },
        );
        Json::object(m)
    }
}

/// Every [`GroundingChunk`] is read back from its wire form.
pub proof fn lemma_grounding_chunk_reads_back(record: GroundingChunkView)
    ensures
        GroundingChunkView::read(record.wire()) == Ok::<GroundingChunkView, DecodeError>(record),
{
    broadcast use group_members;
    reveal_strlit("retrievedContext");
    reveal_strlit("retrieved_context");
    reveal_strlit("web");
    assert("retrievedContext"@[0] == 'r');
    assert("web"@[0] == 'w');
    assert("retrieved_context"@[9] == '_');
    assert("retrievedContext"@[9] == 'C');
    assert("retrieved_context"@[0] == 'r');
    let m = record.wire_members();
    assert(
        find(m, "retrievedContext"@) == (
            match record.retrieved_context { Some(t) => Some(t.wire()), None => None::<JsonView> }
        )
    );
    assert(find(m, "retrieved_context"@) is None);
    if record.retrieved_context is Some {
        lemma_retrieved_context_reads_back(record.retrieved_context->0);
    }
    let retrieved_context = opt(
        m,
        "retrievedContext"@,
        "retrieved_context"@,
        |x: JsonView| RetrievedContextView::read(x),
    );
    assert(retrieved_context == Ok::<
        Option<RetrievedContextView>,
        DecodeError,
    >(record.retrieved_context));
    assert(
        find(m, "web"@) == (
            match record.web { Some(t) => Some(t.wire()), None => None::<JsonView> }
        )
    );
    if record.web is Some {
        lemma_web_context_reads_back(record.web->0);
    }
    let web = opt(m, "web"@, "web"@, |x: JsonView| WebContextView::read(x));
    assert(web == Ok::<Option<WebContextView>, DecodeError>(record.web));
    assert(GroundingChunkView::read_members(m) == Ok::<GroundingChunkView, DecodeError>(record));
}

/// A span of generated text: where it starts and ends, in which part, and
/// what it says.
#[derive(Clone, Debug, PartialEq)]
pub struct Segment {
    pub end_index: i32,
    pub part_index: i32,
    pub start_index: i32,
    pub text: String,
}

/// The model of [`Segment`].
pub struct SegmentView {
    pub end_index: i32,
    pub part_index: i32,
    pub start_index: i32,
    pub text: Seq<char>,
}

impl View for Segment {
    type V = SegmentView;

    open spec fn view(&self) -> SegmentView {
        SegmentView {
            end_index: self.end_index,
            part_index: self.part_index,
            start_index: self.start_index,
            text: self.text@,
        }
    }
}

impl DeepView for Segment {
    type V = SegmentView;

    open spec fn deep_view(&self) -> SegmentView {
        self@
    }
}

impl SegmentView {
    /// The record that an object's members hold. The fields are read in
    /// the order in which the record lists them, and the first that
    /// cannot be read fails the record with its error.
    pub open spec fn read_members(m: Members) -> Result<SegmentView, DecodeError> {
        let end_index = req_i32(m, "endIndex"@, "end_index"@);
        let part_index = req_i32(m, "partIndex"@, "part_index"@);
        let start_index = req_i32(m, "startIndex"@, "start_index"@);
        let text = req_text(m, "text"@, "text"@);
        if end_index is Err {
            Err(end_index->Err_0)
        } else if part_index is Err {
            Err(part_index->Err_0)
        } else if start_index is Err {
            Err(start_index->Err_0)
        } else if text is Err {
            Err(text->Err_0)
        } else {
            Ok(
                SegmentView {
                    end_index: end_index->Ok_0,
                    part_index: part_index->Ok_0,
                    start_index: start_index->Ok_0,
                    text: text->Ok_0,
                },
            )
        }
    }

    /// The record that a wire value holds.
    pub open spec fn read(j: JsonView) -> Result<SegmentView, DecodeError> {
        match j {
            JsonView::Object(m) => SegmentView::read_members(m),
            _ => Err(DecodeError::NotAnObject),
        }
    }

    /// The members of the wire form, in the order of the fields. A field
    /// that holds nothing is left out.
    pub open spec fn wire_members(self) -> Members {
        Seq::<(Seq<char>, JsonView)>::empty()
            + put("endIndex"@, i32_json(self.end_index))
            + put("partIndex"@, i32_json(self.part_index))
            + put("startIndex"@, i32_json(self.start_index))
            + put("text"@, JsonView::Str(self.text))
    }

    /// The wire form of the record.
    pub open spec fn wire(self) -> JsonView {
        JsonView::Object(self.wire_members())
    }
}

impl Segment {
    /// Reads a wire value as this record.
    pub fn decode(j: &Json) -> (r: Result<Segment, DecodeError>)
        ensures
            lift(r) == SegmentView::read(j@),
    {
        let m = match j.as_object() {
            Some(m) => m,
            None => {
                return Err(DecodeError::NotAnObject);
            },
        };
        let end_index = get_i32(m, "endIndex", "end_index")?;
        let part_index = get_i32(m, "partIndex", "part_index")?;
        let start_index = get_i32(m, "startIndex", "start_index")?;
        let text = get_text(m, "text", "text")?;
        Ok(Segment { end_index, part_index, start_index, text })
    }

    /// Writes this record in its wire form.
    pub fn encode(&self) -> (r: Json)
        ensures
            r@ == self@.wire(),
    {
        let mut m: Vec<(String, Json)> = Vec::new();
        assert(m.deep_view() =~= Seq::<(Seq<char>, JsonView)>::empty());
        push_i32(&mut m, "endIndex", self.end_index);
        push_i32(&mut m, "partIndex", self.part_index);
        push_i32(&mut m, "startIndex", self.start_index);
        push_text(&mut m, "text", &self.text);
        Json::object(m)
    }
}

/// Every [`Segment`] is read back from its wire form.
pub proof fn lemma_segment_reads_back(record: SegmentView)
    ensures
        SegmentView::read(record.wire()) == Ok::<SegmentView, DecodeError>(record),
{
    broadcast use group_members;
    reveal_strlit("endIndex");
    reveal_strlit("end_index");
    reveal_strlit("partIndex");
    reveal_strlit("part_index");
    reveal_strlit("startIndex");
    reveal_strlit("start_index");
    reveal_strlit("text");
    assert("endIndex"@[0] == 'e');
    assert("partIndex"@[0] == 'p');
    assert("startIndex"@[0] == 's');
    assert("text"@[0] == 't');
    assert("end_index"@[3] == '_');
    assert("endIndex"@[3] == 'I');
    assert("end_index"@[0] == 'e');
    assert("part_index"@[0] == 'p');
    assert("part_index"@[4] == '_');
    assert("partIndex"@[4] == 'I');
    assert("start_index"@[0] == 's');
    assert("start_index"@[5] == '_');
    assert("startIndex"@[5] == 'I');
    let m = record.wire_members();
    assert(find(m, "endIndex"@) == Some(i32_json(record.end_index)));
    assert(find(m, "end_index"@) is None);
    let end_index = req_i32(m, "endIndex"@, "end_index"@);
    assert(end_index == Ok::<i32, DecodeError>(record.end_index));
    assert(find(m, "partIndex"@) == Some(i32_json(record.part_index)));
    assert(find(m, "part_index"@) is None);
    let part_index = req_i32(m, "partIndex"@, "part_index"@);
    assert(part_index == Ok::<i32, DecodeError>(record.part_index));
    assert(find(m, "startIndex"@) == Some(i32_json(record.start_index)));
    assert(find(m, "start_index"@) is None);
    let start_index = req_i32(m, "startIndex"@, "start_index"@);
    assert(start_index == Ok::<i32, DecodeError>(record.start_index));
    assert(find(m, "text"@) == Some(JsonView::Str(record.text)));
    let text = req_text(m, "text"@, "text"@);
    assert(text == Ok::<Seq<char>, DecodeError>(record.text));
    assert(SegmentView::read_members(m) == Ok::<SegmentView, DecodeError>(record));
}

/// The sources that support one segment, with a confidence for each. A
/// confidence is kept as the number that the wire gave.
#[derive(Clone, Debug, PartialEq)]
pub struct GroundingSupport {
    pub confidence_scores: Vec<Number>,
    pub grounding_chunk_indices: Vec<i32>,
    pub segment: Segment,
}

/// The model of [`GroundingSupport`].
pub struct GroundingSupportView {
    pub confidence_scores: Seq<NumberView>,
    pub grounding_chunk_indices: Seq<i32>,
    pub segment: SegmentView,
}

impl View for GroundingSupport {
    type V = GroundingSupportView;

    open spec fn view(&self) -> GroundingSupportView {
        GroundingSupportView {
            confidence_scores: self.confidence_scores.deep_view(),
            grounding_chunk_indices: self.grounding_chunk_indices.deep_view(),
            segment: self.segment@,
        }
    }
}

impl DeepView for GroundingSupport {
    type V = GroundingSupportView;

    open spec fn deep_view(&self) -> GroundingSupportView {
        self@
    }
}

impl GroundingSupportView {
    /// The record that an object's members hold. The fields are read in
    /// the order in which the record lists them, and the first that
    /// cannot be read fails the record with its error.
    pub open spec fn read_members(m: Members) -> Result<GroundingSupportView, DecodeError> {
        let confidence_scores = req_numbers(m, "confidenceScores"@, "confidence_scores"@);
        let grounding_chunk_indices = req_i32s(
            m,
            "groundingChunkIndices"@,
            "grounding_chunk_indices"@,
        );
        let segment = req(m, "segment"@, "segment"@, |x: JsonView| SegmentView::read(x));
        if confidence_scores is Err {
            Err(confidence_scores->Err_0)
        } else if grounding_chunk_indices is Err {
            Err(grounding_chunk_indices->Err_0)
        } else if segment is Err {
            Err(segment->Err_0)
        } else {
            Ok(
                GroundingSupportView {
                    confidence_scores: confidence_scores->Ok_0,
                    grounding_chunk_indices: grounding_chunk_indices->Ok_0,
                    segment: segment->Ok_0,
                },
            )
        }
    }

    /// The record that a wire value holds.
    pub open spec fn read(j: JsonView) -> Result<GroundingSupportView, DecodeError> {
        match j {
            JsonView::Object(m) => GroundingSupportView::read_members(m),
            _ => Err(DecodeError::NotAnObject),
        }
    }

    /// The members of the wire form, in the order of the fields. A field
    /// that holds nothing is left out.
    pub open spec fn wire_members(self) -> Members {
        Seq::<(Seq<char>, JsonView)>::empty()
            + put("confidenceScores"@, numbers_json(self.confidence_scores))
            + put("groundingChunkIndices"@, i32s_json(self.grounding_chunk_indices))
            + put("segment"@, self.segment.wire())
    }

    /// The wire form of the record.
    pub open spec fn wire(self) -> JsonView {
        JsonView::Object(self.wire_members())
    }
}

impl GroundingSupport {
    /// Reads a wire value as this record.
    pub fn decode(j: &Json) -> (r: Result<GroundingSupport, DecodeError>)
        ensures
            lift(r) == GroundingSupportView::read(j@),
    {
        let m = match j.as_object() {
            Some(m) => m,
            None => {
                return Err(DecodeError::NotAnObject);
            },
        };
        let confidence_scores = get_numbers(m, "confidenceScores", "confidence_scores")?;
        let grounding_chunk_indices = get_i32s(
            m,
            "groundingChunkIndices",
            "grounding_chunk_indices",
        )?;
        let segment = Segment::decode(field(m, "segment", "segment")?)?;
        Ok(GroundingSupport { confidence_scores, grounding_chunk_indices, segment })
    }

    /// Writes this record in its wire form.
    pub fn encode(&self) -> (r: Json)
        ensures
            r@ == self@.wire(),
    {
        let mut m: Vec<(String, Json)> = Vec::new();
        assert(m.deep_view() =~= Seq::<(Seq<char>, JsonView)>::empty());
        push_numbers(&mut m, "confidenceScores", &self.confidence_scores);
        push_i32s(&mut m, "groundingChunkIndices", &self.grounding_chunk_indices);
        push_json(&mut m, "segment", self.segment.encode());
        Json::object(m)
    }
}

/// Every [`GroundingSupport`] is read back from its wire form.
pub proof fn lemma_grounding_support_reads_back(record: GroundingSupportView)
    ensures
        GroundingSupportView::read(record.wire()) == Ok::<
            GroundingSupportView,
            DecodeError,
        >(record),
{
    broadcast use group_members;
    reveal_strlit("confidenceScores");
    reveal_strlit("confidence_scores");
    reveal_strlit("groundingChunkIndices");
    reveal_strlit("grounding_chunk_indices");
    reveal_strlit("segment");
    assert("confidenceScores"@[0] == 'c');
    assert("groundingChunkIndices"@[0] == 'g');
    assert("segment"@[0] == 's');
    assert("confidence_scores"@[10] == '_');
    assert("confidenceScores"@[10] == 'S');
    assert("confidence_scores"@[0] == 'c');
    assert("grounding_chunk_indices"@[0] == 'g');
    assert("grounding_chunk_indices"@[9] == '_');
    assert("groundingChunkIndices"@[9] == 'C');
    let m = record.wire_members();
    assert(find(m, "confidenceScores"@) == Some(numbers_json(record.confidence_scores)));
    assert(find(m, "confidence_scores"@) is None);
    lemma_numbers_read_back(record.confidence_scores);
    let confidence_scores = req_numbers(m, "confidenceScores"@, "confidence_scores"@);
    assert(confidence_scores == Ok::<Seq<NumberView>, DecodeError>(record.confidence_scores));
    assert(find(m, "groundingChunkIndices"@) == Some(i32s_json(record.grounding_chunk_indices)));
    assert(find(m, "grounding_chunk_indices"@) is None);
    lemma_i32s_read_back(record.grounding_chunk_indices);
    let grounding_chunk_indices = req_i32s(m, "groundingChunkIndices"@, "grounding_chunk_indices"@);
    assert(grounding_chunk_indices == Ok::<Seq<i32>, DecodeError>(record.grounding_chunk_indices));
    assert(find(m, "segment"@) == Some(record.segment.wire()));
    lemma_segment_reads_back(record.segment);
    let segment = req(m, "segment"@, "segment"@, |x: JsonView| SegmentView::read(x));
    assert(segment == Ok::<SegmentView, DecodeError>(record.segment));
    assert(GroundingSupportView::read_members(m) == Ok::<
        GroundingSupportView,
        DecodeError,
    >(record));
}

/// What the retrieval reported of itself.
#[derive(Clone, Debug, PartialEq)]
pub struct RetrievalMetadata {
    pub google_search_dynamic_retrieval_score: Option<Number>,
}

/// The model of [`RetrievalMetadata`].
pub struct RetrievalMetadataView {
    pub google_search_dynamic_retrieval_score: Option<NumberView>,
}

impl View for RetrievalMetadata {
    type V = RetrievalMetadataView;

    open spec fn view(&self) -> RetrievalMetadataView {
        RetrievalMetadataView {
            google_search_dynamic_retrieval_score: self.google_search_dynamic_retrieval_score.deep_view(),
        }
    }
}

impl DeepView for RetrievalMetadata {
    type V = RetrievalMetadataView;

    open spec fn deep_view(&self) -> RetrievalMetadataView {
        self@
    }
}

impl RetrievalMetadataView {
    /// The record that an object's members hold. The fields are read in
    /// the order in which the record lists them, and the first that
    /// cannot be read fails the record with its error.
    pub open spec fn read_members(m: Members) -> Result<RetrievalMetadataView, DecodeError> {
        let google_search_dynamic_retrieval_score = opt_number(
            m,
            "googleSearchDynamicRetrievalScore"@,
            "google_search_dynamic_retrieval_score"@,
        );
        if google_search_dynamic_retrieval_score is Err {
            Err(google_search_dynamic_retrieval_score->Err_0)
        } else {
            Ok(
                RetrievalMetadataView {
                    google_search_dynamic_retrieval_score: google_search_dynamic_retrieval_score->Ok_0,
                },
            )
        }
    }

    /// The record that a wire value holds.
    pub open spec fn read(j: JsonView) -> Result<RetrievalMetadataView, DecodeError> {
        match j {
            JsonView::Object(m) => RetrievalMetadataView::read_members(m),
            _ => Err(DecodeError::NotAnObject),
        }
    }

    /// The members of the wire form, in the order of the fields. A field
    /// that holds nothing is left out.
    pub open spec fn wire_members(self) -> Members {
        Seq::<(Seq<char>, JsonView)>::empty()
            + put_opt(
                "googleSearchDynamicRetrievalScore"@,
                opt_number_json(self.google_search_dynamic_retrieval_score),
            )
    }

    /// The wire form of the record.
    pub open spec fn wire(self) -> JsonView {
        JsonView::Object(self.wire_members())
    }
}

impl RetrievalMetadata {
    /// Reads a wire value as this record.
    pub fn decode(j: &Json) -> (r: Result<RetrievalMetadata, DecodeError>)
        ensures
            lift(r) == RetrievalMetadataView::read(j@),
    {
        let m = match j.as_object() {
            Some(m) => m,
            None => {
                return Err(DecodeError::NotAnObject);
            },
        };
        let google_search_dynamic_retrieval_score = get_opt_number(
            m,
            "googleSearchDynamicRetrievalScore",
            "google_search_dynamic_retrieval_score",
        )?;
        Ok(RetrievalMetadata { google_search_dynamic_retrieval_score })
    }

    /// Writes this record in its wire form.
    pub fn encode(&self) -> (r: Json)
        ensures
            r@ == self@.wire(),
    {
        let mut m: Vec<(String, Json)> = Vec::new();
        assert(m.deep_view() =~= Seq::<(Seq<char>, JsonView)>::empty());
        push_opt_number(
            &mut m,
            "googleSearchDynamicRetrievalScore",
            &self.google_search_dynamic_retrieval_score,
        );
        Json::object(m)
    }
}

/// Every [`RetrievalMetadata`] is read back from its wire form.
pub proof fn lemma_retrieval_metadata_reads_back(record: RetrievalMetadataView)
    ensures
        RetrievalMetadataView::read(record.wire()) == Ok::<
            RetrievalMetadataView,
            DecodeError,
        >(record),
{
    broadcast use group_members;
    reveal_strlit("googleSearchDynamicRetrievalScore");
    reveal_strlit("google_search_dynamic_retrieval_score");
    assert("google_search_dynamic_retrieval_score"@[6] == '_');
    assert("googleSearchDynamicRetrievalScore"@[6] == 'S');
    let m = record.wire_members();
    assert(
        find(m, "googleSearchDynamicRetrievalScore"@) == opt_number_json(
            record.google_search_dynamic_retrieval_score,
        )
    );
    assert(find(m, "google_search_dynamic_retrieval_score"@) is None);
    let google_search_dynamic_retrieval_score = opt_number(
        m,
        "googleSearchDynamicRetrievalScore"@,
        "google_search_dynamic_retrieval_score"@,
    );
    assert(google_search_dynamic_retrieval_score == Ok::<
        Option<NumberView>,
        DecodeError,
    >(record.google_search_dynamic_retrieval_score));
    assert(RetrievalMetadataView::read_members(m) == Ok::<
        RetrievalMetadataView,
        DecodeError,
    >(record));
}

/// Where a search may be entered: rendered content, an opaque blob, or
/// both.
#[derive(Clone, Debug, PartialEq)]
pub struct SearchEntryPoint {
    pub rendered_content: Option<String>,
    pub sdk_blob: Option<String>,
}

/// The model of [`SearchEntryPoint`].
pub struct SearchEntryPointView {
    pub rendered_content: Option<Seq<char>>,
    pub sdk_blob: Option<Seq<char>>,
}

impl View for SearchEntryPoint {
    type V = SearchEntryPointView;

    open spec fn view(&self) -> SearchEntryPointView {
        SearchEntryPointView {
            rendered_content: self.rendered_content.deep_view(),
            sdk_blob: self.sdk_blob.deep_view(),
        }
    }
}

impl DeepView for SearchEntryPoint {
    type V = SearchEntryPointView;

    open spec fn deep_view(&self) -> SearchEntryPointView {
        self@
    }
}

impl SearchEntryPointView {
    /// The record that an object's members hold. The fields are read in
    /// the order in which the record lists them, and the first that
    /// cannot be read fails the record with its error.
    pub open spec fn read_members(m: Members) -> Result<SearchEntryPointView, DecodeError> {
        let rendered_content = opt_text(m, "renderedContent"@, "rendered_content"@);
        let sdk_blob = opt_text(m, "sdkBlob"@, "sdk_blob"@);
        if rendered_content is Err {
            Err(rendered_content->Err_0)
        } else if sdk_blob is Err {
            Err(sdk_blob->Err_0)
        } else {
            Ok(
                SearchEntryPointView {
                    rendered_content: rendered_content->Ok_0,
                    sdk_blob: sdk_blob->Ok_0,
                },
            )
        }
    }

    /// The record that a wire value holds.
    pub open spec fn read(j: JsonView) -> Result<SearchEntryPointView, DecodeError> {
        match j {
            JsonView::Object(m) => SearchEntryPointView::read_members(m),
            _ => Err(DecodeError::NotAnObject),
        }
    }

    /// The members of the wire form, in the order of the fields. A field
    /// that holds nothing is left out.
    pub open spec fn wire_members(self) -> Members {
        Seq::<(Seq<char>, JsonView)>::empty()
            + put_opt("renderedContent"@, opt_text_json(self.rendered_content))
            + put_opt("sdkBlob"@, opt_text_json(self.sdk_blob))
    }

    /// The wire form of the record.
    pub open spec fn wire(self) -> JsonView {
        JsonView::Object(self.wire_members())
    }
}

impl SearchEntryPoint {
    /// Reads a wire value as this record.
    pub fn decode(j: &Json) -> (r: Result<SearchEntryPoint, DecodeError>)
        ensures
            lift(r) == SearchEntryPointView::read(j@),
    {
        let m = match j.as_object() {
            Some(m) => m,
            None => {
                return Err(DecodeError::NotAnObject);
            },
        };
        let rendered_content = get_opt_text(m, "renderedContent", "rendered_content")?;
        let sdk_blob = get_opt_text(m, "sdkBlob", "sdk_blob")?;
        Ok(SearchEntryPoint { rendered_content, sdk_blob })
    }

    /// Writes this record in its wire form.
    pub fn encode(&self) -> (r: Json)
        ensures
            r@ == self@.wire(),
    {
        let mut m: Vec<(String, Json)> = Vec::new();
        assert(m.deep_view() =~= Seq::<(Seq<char>, JsonView)>::empty());
        push_opt_text(&mut m, "renderedContent", &self.rendered_content);
        push_opt_text(&mut m, "sdkBlob", &self.sdk_blob);
        Json::object(m)
    }
}

/// Every [`SearchEntryPoint`] is read back from its wire form.
pub proof fn lemma_search_entry_point_reads_back(record: SearchEntryPointView)
    ensures
        SearchEntryPointView::read(record.wire()) == Ok::<
            SearchEntryPointView,
            DecodeError,
        >(record),
{
    broadcast use group_members;
    reveal_strlit("renderedContent");
    reveal_strlit("rendered_content");
    reveal_strlit("sdkBlob");
    reveal_strlit("sdk_blob");
    assert("renderedContent"@[0] == 'r');
    assert("sdkBlob"@[0] == 's');
    assert("rendered_content"@[8] == '_');
    assert("renderedContent"@[8] == 'C');
    assert("rendered_content"@[0] == 'r');
    assert("sdk_blob"@[0] == 's');
    assert("sdk_blob"@[3] == '_');
    assert("sdkBlob"@[3] == 'B');
    let m = record.wire_members();
    assert(find(m, "renderedContent"@) == opt_text_json(record.rendered_content));
    assert(find(m, "rendered_content"@) is None);
    let rendered_content = opt_text(m, "renderedContent"@, "rendered_content"@);
    assert(rendered_content == Ok::<Option<Seq<char>>, DecodeError>(record.rendered_content));
    assert(find(m, "sdkBlob"@) == opt_text_json(record.sdk_blob));
    assert(find(m, "sdk_blob"@) is None);
    let sdk_blob = opt_text(m, "sdkBlob"@, "sdk_blob"@);
    assert(sdk_blob == Ok::<Option<Seq<char>>, DecodeError>(record.sdk_blob));
    assert(SearchEntryPointView::read_members(m) == Ok::<
        SearchEntryPointView,
        DecodeError,
    >(record));
}

/// All that a turn event says of its grounding.
#[derive(Clone, Debug, PartialEq)]
pub struct GroundingMetadata {
    pub grounding_chunks: Vec<GroundingChunk>,
    pub grounding_supports: Vec<GroundingSupport>,
    pub retrieval_metadata: RetrievalMetadata,
    pub retrieval_queries: Vec<String>,
    pub search_entry_point: SearchEntryPoint,
    pub web_search_queries: Vec<String>,
}

/// The model of [`GroundingMetadata`].
pub struct GroundingMetadataView {
    pub grounding_chunks: Seq<GroundingChunkView>,
    pub grounding_supports: Seq<GroundingSupportView>,
    pub retrieval_metadata: RetrievalMetadataView,
    pub retrieval_queries: Seq<Seq<char>>,
    pub search_entry_point: SearchEntryPointView,
    pub web_search_queries: Seq<Seq<char>>,
}

impl View for GroundingMetadata {
    type V = GroundingMetadataView;

    open spec fn view(&self) -> GroundingMetadataView {
        GroundingMetadataView {
            grounding_chunks: self.grounding_chunks.deep_view(),
            grounding_supports: self.grounding_supports.deep_view(),
            retrieval_metadata: self.retrieval_metadata@,
            retrieval_queries: self.retrieval_queries.deep_view(),
            search_entry_point: self.search_entry_point@,
            web_search_queries: self.web_search_queries.deep_view(),
        }
    }
}

impl DeepView for GroundingMetadata {
    type V = GroundingMetadataView;

    open spec fn deep_view(&self) -> GroundingMetadataView {
        self@
    }
}

impl GroundingMetadataView {
    /// The record that an object's members hold. The fields are read in
    /// the order in which the record lists them, and the first that
    /// cannot be read fails the record with its error.
    pub open spec fn read_members(m: Members) -> Result<GroundingMetadataView, DecodeError> {
        let grounding_chunks = req(
            m,
            "groundingChunks"@,
            "grounding_chunks"@,
            |j: JsonView| list(j, |x: JsonView| GroundingChunkView::read(x)),
        );
        let grounding_supports = req(
            m,
            "groundingSupports"@,
            "grounding_supports"@,
            |j: JsonView| list(j, |x: JsonView| GroundingSupportView::read(x)),
        );
        let retrieval_metadata = req(
            m,
            "retrievalMetadata"@,
            "retrieval_metadata"@,
            |x: JsonView| RetrievalMetadataView::read(x),
        );
        let retrieval_queries = req_texts(m, "retrievalQueries"@, "retrieval_queries"@);
        let search_entry_point = req(
            m,
            "searchEntryPoint"@,
            "search_entry_point"@,
            |x: JsonView| SearchEntryPointView::read(x),
        );
        let web_search_queries = req_texts(m, "webSearchQueries"@, "web_search_queries"@);
        if grounding_chunks is Err {
            Err(grounding_chunks->Err_0)
        } else if grounding_supports is Err {
            Err(grounding_supports->Err_0)
        } else if retrieval_metadata is Err {
            Err(retrieval_metadata->Err_0)
        } else if retrieval_queries is Err {
            Err(retrieval_queries->Err_0)
        } else if search_entry_point is Err {
            Err(search_entry_point->Err_0)
        } else if web_search_queries is Err {
            Err(web_search_queries->Err_0)
        } else {
            Ok(
                GroundingMetadataView {
                    grounding_chunks: grounding_chunks->Ok_0,
                    grounding_supports: grounding_supports->Ok_0,
                    retrieval_metadata: retrieval_metadata->Ok_0,
                    retrieval_queries: retrieval_queries->Ok_0,
                    search_entry_point: search_entry_point->Ok_0,
                    web_search_queries: web_search_queries->Ok_0,
                },
            )
        }
    }

    /// The record that a wire value holds.
    pub open spec fn read(j: JsonView) -> Result<GroundingMetadataView, DecodeError> {
        match j {
            JsonView::Object(m) => GroundingMetadataView::read_members(m),
            _ => Err(DecodeError::NotAnObject),
        }
    }

    /// The members of the wire form, in the order of the fields. A field
    /// that holds nothing is left out.
    pub open spec fn wire_members(self) -> Members {
        Seq::<(Seq<char>, JsonView)>::empty()
            + put(
                "groundingChunks"@,
                JsonView::Array(self.grounding_chunks.map_values(|t: GroundingChunkView| t.wire())),
            )
            + put(
                "groundingSupports"@,
                JsonView::Array(
                    self.grounding_supports.map_values(|t: GroundingSupportView| t.wire()),
                ),
            )
            + put("retrievalMetadata"@, self.retrieval_metadata.wire())
            + put("retrievalQueries"@, texts_json(self.retrieval_queries))
            + put("searchEntryPoint"@, self.search_entry_point.wire())
            + put("webSearchQueries"@, texts_json(self.web_search_queries))
    }

    /// The wire form of the record.
    pub open spec fn wire(self) -> JsonView {
        JsonView::Object(self.wire_members())
    }
}

impl GroundingMetadata {
    /// Reads a wire value as this record.
    pub fn decode(j: &Json) -> (r: Result<GroundingMetadata, DecodeError>)
        ensures
            lift(r) == GroundingMetadataView::read(j@),
    {
        let m = match j.as_object() {
            Some(m) => m,
            None => {
                return Err(DecodeError::NotAnObject);
            },
        };
        let grounding_chunks = read_all(
            items_of(field(m, "groundingChunks", "grounding_chunks")?)?,
            GroundingChunk::decode,
            Ghost(|x: JsonView| GroundingChunkView::read(x)),
        )?;
        let grounding_supports = read_all(
            items_of(field(m, "groundingSupports", "grounding_supports")?)?,
            GroundingSupport::decode,
            Ghost(|x: JsonView| GroundingSupportView::read(x)),
        )?;
        let retrieval_metadata = RetrievalMetadata::decode(
            field(m, "retrievalMetadata", "retrieval_metadata")?,
        )?;
        let retrieval_queries = get_texts(m, "retrievalQueries", "retrieval_queries")?;
        let search_entry_point = SearchEntryPoint::decode(
            field(m, "searchEntryPoint", "search_entry_point")?,
        )?;
        let web_search_queries = get_texts(m, "webSearchQueries", "web_search_queries")?;
        Ok(
            GroundingMetadata {
                grounding_chunks,
                grounding_supports,
                retrieval_metadata,
                retrieval_queries,
                search_entry_point,
                web_search_queries,
            },
        )
    }

    /// Writes this record in its wire form.
    pub fn encode(&self) -> (r: Json)
        ensures
            r@ == self@.wire(),
    {
        let mut m: Vec<(String, Json)> = Vec::new();
        assert(m.deep_view() =~= Seq::<(Seq<char>, JsonView)>::empty());
        let grounding_chunks = write_all(
            &self.grounding_chunks,
            GroundingChunk::encode,
            Ghost(|t: GroundingChunkView| t.wire()),
        );
        push_json(&mut m, "groundingChunks", Json::array(grounding_chunks));
        let grounding_supports = write_all(
            &self.grounding_supports,
            GroundingSupport::encode,
            Ghost(|t: GroundingSupportView| t.wire()),
        );
        push_json(&mut m, "groundingSupports", Json::array(grounding_supports));
        push_json(&mut m, "retrievalMetadata", self.retrieval_metadata.encode());
        push_texts(&mut m, "retrievalQueries", &self.retrieval_queries);
        push_json(&mut m, "searchEntryPoint", self.search_entry_point.encode());
        push_texts(&mut m, "webSearchQueries", &self.web_search_queries);
        Json::object(m)
    }
}

/// Every [`GroundingMetadata`] is read back from its wire form.
pub proof fn lemma_grounding_metadata_reads_back(record: GroundingMetadataView)
    ensures
        GroundingMetadataView::read(record.wire()) == Ok::<
            GroundingMetadataView,
            DecodeError,
        >(record),
{
    broadcast use group_members;
    reveal_strlit("groundingChunks");
    reveal_strlit("grounding_chunks");
    reveal_strlit("groundingSupports");
    reveal_strlit("grounding_supports");
    reveal_strlit("retrievalMetadata");
    reveal_strlit("retrieval_metadata");
    reveal_strlit("retrievalQueries");
    reveal_strlit("retrieval_queries");
    reveal_strlit("searchEntryPoint");
    reveal_strlit("search_entry_point");
    reveal_strlit("webSearchQueries");
    reveal_strlit("web_search_queries");
    assert("groundingChunks"@[9] == 'C');
    assert("groundingSupports"@[9] == 'S');
    assert("groundingChunks"@[0] == 'g');
    assert("retrievalMetadata"@[0] == 'r');
    assert("retrievalQueries"@[0] == 'r');
    assert("searchEntryPoint"@[0] == 's');
    assert("webSearchQueries"@[0] == 'w');
    assert("grounding_chunks"@[9] == '_');
    assert("grounding_chunks"@[0] == 'g');
    assert("groundingSupports"@[0] == 'g');
    assert("grounding_supports"@[9] == '_');
    assert("grounding_supports"@[0] == 'g');
    assert("retrievalMetadata"@[9] == 'M');
    assert("retrievalQueries"@[9] == 'Q');
    assert("retrieval_metadata"@[0] == 'r');
    assert("retrieval_metadata"@[9] == '_');
    assert("retrieval_queries"@[0] == 'r');
    assert("retrieval_queries"@[9] == '_');
    assert("search_entry_point"@[0] == 's');
    assert("search_entry_point"@[6] == '_');
    assert("searchEntryPoint"@[6] == 'E');
    assert("web_search_queries"@[0] == 'w');
    assert("web_search_queries"@[3] == '_');
    assert("webSearchQueries"@[3] == 'S');
    let m = record.wire_members();
    assert(
        find(m, "groundingChunks"@) == Some(
            JsonView::Array(record.grounding_chunks.map_values(|t: GroundingChunkView| t.wire())),
        )
    );
    assert(find(m, "grounding_chunks"@) is None);
    assert forall|i: int| 0 <= i < record.grounding_chunks.len() implies GroundingChunkView::read(
        (#[trigger] record.grounding_chunks[i]).wire(),
    ) == Ok::<GroundingChunkView, DecodeError>(record.grounding_chunks[i]) by {
        lemma_grounding_chunk_reads_back(record.grounding_chunks[i]);
    }
    lemma_all_reads_back(
        record.grounding_chunks,
        |t: GroundingChunkView| t.wire(),
        |x: JsonView| GroundingChunkView::read(x),
    );
    let grounding_chunks = req(
        m,
        "groundingChunks"@,
        "grounding_chunks"@,
        |j: JsonView| list(j, |x: JsonView| GroundingChunkView::read(x)),
    );
    assert(grounding_chunks == Ok::<Seq<GroundingChunkView>, DecodeError>(record.grounding_chunks));
    assert(
        find(m, "groundingSupports"@) == Some(
            JsonView::Array(
                record.grounding_supports.map_values(|t: GroundingSupportView| t.wire()),
            ),
        )
    );
    assert(find(m, "grounding_supports"@) is None);
    assert forall|i: int| 0 <= i < record.grounding_supports.len() implies GroundingSupportView::read(
        (#[trigger] record.grounding_supports[i]).wire(),
    ) == Ok::<GroundingSupportView, DecodeError>(record.grounding_supports[i]) by {
        lemma_grounding_support_reads_back(record.grounding_supports[i]);
    }
    lemma_all_reads_back(
        record.grounding_supports,
        |t: GroundingSupportView| t.wire(),
        |x: JsonView| GroundingSupportView::read(x),
    );
    let grounding_supports = req(
        m,
        "groundingSupports"@,
        "grounding_supports"@,
        |j: JsonView| list(j, |x: JsonView| GroundingSupportView::read(x)),
    );
    assert(grounding_supports == Ok::<
        Seq<GroundingSupportView>,
        DecodeError,
    >(record.grounding_supports));
    assert(find(m, "retrievalMetadata"@) == Some(record.retrieval_metadata.wire()));
    assert(find(m, "retrieval_metadata"@) is None);
    lemma_retrieval_metadata_reads_back(record.retrieval_metadata);
    let retrieval_metadata = req(
        m,
        "retrievalMetadata"@,
        "retrieval_metadata"@,
        |x: JsonView| RetrievalMetadataView::read(x),
    );
    assert(retrieval_metadata == Ok::<
        RetrievalMetadataView,
        DecodeError,
    >(record.retrieval_metadata));
    assert(find(m, "retrievalQueries"@) == Some(texts_json(record.retrieval_queries)));
    assert(find(m, "retrieval_queries"@) is None);
    lemma_texts_read_back(record.retrieval_queries);
    let retrieval_queries = req_texts(m, "retrievalQueries"@, "retrieval_queries"@);
    assert(retrieval_queries == Ok::<Seq<Seq<char>>, DecodeError>(record.retrieval_queries));
    assert(find(m, "searchEntryPoint"@) == Some(record.search_entry_point.wire()));
    assert(find(m, "search_entry_point"@) is None);
    lemma_search_entry_point_reads_back(record.search_entry_point);
    let search_entry_point = req(
        m,
        "searchEntryPoint"@,
        "search_entry_point"@,
        |x: JsonView| SearchEntryPointView::read(x),
    );
    assert(search_entry_point == Ok::<
        SearchEntryPointView,
        DecodeError,
    >(record.search_entry_point));
    assert(find(m, "webSearchQueries"@) == Some(texts_json(record.web_search_queries)));
    assert(find(m, "web_search_queries"@) is None);
    lemma_texts_read_back(record.web_search_queries);
    let web_search_queries = req_texts(m, "webSearchQueries"@, "web_search_queries"@);
    assert(web_search_queries == Ok::<Seq<Seq<char>>, DecodeError>(record.web_search_queries));
    assert(GroundingMetadataView::read_members(m) == Ok::<
        GroundingMetadataView,
        DecodeError,
    >(record));
}
} // verus!
