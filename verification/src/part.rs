//! One unit of conversational content, and its wire form.
//!
//! On the wire a part is an object without a tag: its kind is told by the
//! fields it has. A decoder tries the kinds in the fixed order in which
//! [`PartKind`] lists them, and the first kind whose fields are all present
//! with values of the right type is the part's kind.

use vstd::prelude::*;
use crate::error::{lift, DecodeError};
use crate::json::{find_from, Json, JsonView, Members};
use crate::record::{
    entry, field, get_flag, get_text, req, req_flag, req_text, required, same_text,
};

verus! {

/// The language of a piece of executable code.
#[derive(Clone, Copy, Debug, PartialEq, Eq, Structural)]
pub enum CodeLanguage {
    LanguageUnspecified,
    Python,
}

/// How a code execution ended.
#[derive(Clone, Copy, Debug, PartialEq, Eq, Structural)]
pub enum Outcome {
    OutcomeUnspecified,
    OutcomeOk,
    OutcomeFailed,
    OutcomeDeadlineExceeded,
}

impl DeepView for CodeLanguage {
    type V = CodeLanguage;

    open spec fn deep_view(&self) -> CodeLanguage {
        *self
    }
}

impl DeepView for Outcome {
    type V = Outcome;

    open spec fn deep_view(&self) -> Outcome {
        *self
    }
}

impl CodeLanguage {
    /// The name of a language on the wire.
    pub open spec fn name(self) -> Seq<char> {
        match self {
            CodeLanguage::LanguageUnspecified => "LANGUAGE_UNSPECIFIED"@,
            CodeLanguage::Python => "Python"@,
        }
    }

    /// The language that a wire value names.
    pub open spec fn read(j: JsonView) -> Result<CodeLanguage, DecodeError> {
        match j {
            JsonView::Str(s) => if s == "LANGUAGE_UNSPECIFIED"@ {
                Ok(CodeLanguage::LanguageUnspecified)
            } else if s == "Python"@ {
                Ok(CodeLanguage::Python)
            } else {
                Err(DecodeError::UnknownName)
            },
            _ => Err(DecodeError::WrongType),
        }
    }

    /// The wire form of a language: its name as a string.
    pub open spec fn wire(self) -> JsonView {
        JsonView::Str(self.name())
    }

    pub fn decode(j: &Json) -> (r: Result<CodeLanguage, DecodeError>)
        ensures
            lift(r) == CodeLanguage::read(j@),
    {
        match j {
            Json::Str(s) => {
                if same_text(s.as_str(), "LANGUAGE_UNSPECIFIED") {
                    Ok(CodeLanguage::LanguageUnspecified)
                } else if same_text(s.as_str(), "Python") {
                    Ok(CodeLanguage::Python)
                } else {
                    Err(DecodeError::UnknownName)
                }
            },
            _ => Err(DecodeError::WrongType),
        }
    }

    pub fn encode(&self) -> (r: Json)
        ensures
            r@ == self.wire(),
    {
        match self {
            CodeLanguage::LanguageUnspecified => Json::string("LANGUAGE_UNSPECIFIED"),
            CodeLanguage::Python => Json::string("Python"),
        }
    }
}

impl Outcome {
    /// The name of an outcome on the wire.
    pub open spec fn name(self) -> Seq<char> {
        match self {
            Outcome::OutcomeUnspecified => "OUTCOME_UNSPECIFIED"@,
            Outcome::OutcomeOk => "OUTCOME_OK"@,
            Outcome::OutcomeFailed => "OUTCOME_FAILED"@,
            Outcome::OutcomeDeadlineExceeded => "OUTCOME_DEADLINE_EXCEEDED"@,
        }
    }

    /// The outcome that a wire value names.
    pub open spec fn read(j: JsonView) -> Result<Outcome, DecodeError> {
        match j {
            JsonView::Str(s) => if s == "OUTCOME_UNSPECIFIED"@ {
                Ok(Outcome::OutcomeUnspecified)
            } else if s == "OUTCOME_OK"@ {
                Ok(Outcome::OutcomeOk)
            } else if s == "OUTCOME_FAILED"@ {
                Ok(Outcome::OutcomeFailed)
            } else if s == "OUTCOME_DEADLINE_EXCEEDED"@ {
                Ok(Outcome::OutcomeDeadlineExceeded)
            } else {
                Err(DecodeError::UnknownName)
            },
            _ => Err(DecodeError::WrongType),
        }
    }

    /// The wire form of an outcome: its name as a string.
    pub open spec fn wire(self) -> JsonView {
        JsonView::Str(self.name())
    }

    pub fn decode(j: &Json) -> (r: Result<Outcome, DecodeError>)
        ensures
            lift(r) == Outcome::read(j@),
    {
        match j {
            Json::Str(s) => {
                if same_text(s.as_str(), "OUTCOME_UNSPECIFIED") {
                    Ok(Outcome::OutcomeUnspecified)
                } else if same_text(s.as_str(), "OUTCOME_OK") {
                    Ok(Outcome::OutcomeOk)
                } else if same_text(s.as_str(), "OUTCOME_FAILED") {
                    Ok(Outcome::OutcomeFailed)
                } else if same_text(s.as_str(), "OUTCOME_DEADLINE_EXCEEDED") {
                    Ok(Outcome::OutcomeDeadlineExceeded)
                } else {
                    Err(DecodeError::UnknownName)
                }
            },
            _ => Err(DecodeError::WrongType),
        }
    }

    pub fn encode(&self) -> (r: Json)
        ensures
            r@ == self.wire(),
    {
        match self {
            Outcome::OutcomeUnspecified => Json::string("OUTCOME_UNSPECIFIED"),
            Outcome::OutcomeOk => Json::string("OUTCOME_OK"),
            Outcome::OutcomeFailed => Json::string("OUTCOME_FAILED"),
            Outcome::OutcomeDeadlineExceeded => Json::string("OUTCOME_DEADLINE_EXCEEDED"),
        }
    }
}

/// The kinds of part, in the order in which a decoder tries them.
#[derive(Clone, Copy, Debug, PartialEq, Eq, Structural)]
pub enum PartKind {
    Text,
    Thought,
    ExecutableCode,
    CodeExecutionResult,
    FileData,
    InlineData,
    FunctionCall,
    FunctionResponse,
    VideoMetadata,
}

impl PartKind {
    /// The place of a kind in the order of precedence, from 0.
    pub open spec fn rank(self) -> nat {
        match self {
            PartKind::Text => 0,
            PartKind::Thought => 1,
            PartKind::ExecutableCode => 2,
            PartKind::CodeExecutionResult => 3,
            PartKind::FileData => 4,
            PartKind::InlineData => 5,
            PartKind::FunctionCall => 6,
            PartKind::FunctionResponse => 7,
            PartKind::VideoMetadata => 8,
        }
    }
}

/// One unit of conversational content.
#[derive(Debug, PartialEq)]
pub enum Parts {
    Text { text: String },
    Thought { thought: bool },
    ExecutableCode { code: String, language: CodeLanguage },
    CodeExecutionResult { outcome: Outcome, output: String },
    FileData { file_uri: String, mime_type: String },
    InlineData { data: String, mime_type: String },
    FunctionCall { id: String, name: String, args: Json },
    FunctionResponse { id: String, name: String, response: Json },
    VideoMetadata { start_offset: String, end_offset: String },
}

/// The model of a part.
pub enum PartsView {
    Text { text: Seq<char> },
    Thought { thought: bool },
    ExecutableCode { code: Seq<char>, language: CodeLanguage },
    CodeExecutionResult { outcome: Outcome, output: Seq<char> },
    FileData { file_uri: Seq<char>, mime_type: Seq<char> },
    InlineData { data: Seq<char>, mime_type: Seq<char> },
    FunctionCall { id: Seq<char>, name: Seq<char>, args: JsonView },
    FunctionResponse { id: Seq<char>, name: Seq<char>, response: JsonView },
    VideoMetadata { start_offset: Seq<char>, end_offset: Seq<char> },
}

impl View for Parts {
    type V = PartsView;

    open spec fn view(&self) -> PartsView {
        match self {
            Parts::Text { text } => PartsView::Text { text: text@ },
            Parts::Thought { thought } => PartsView::Thought { thought: *thought },
            Parts::ExecutableCode { code, language } => PartsView::ExecutableCode {
                code: code@,
                language: *language,
            },
            Parts::CodeExecutionResult { outcome, output } => PartsView::CodeExecutionResult {
                outcome: *outcome,
                output: output@,
            },
            Parts::FileData { file_uri, mime_type } => PartsView::FileData {
                file_uri: file_uri@,
                mime_type: mime_type@,
            },
            Parts::InlineData { data, mime_type } => PartsView::InlineData {
                data: data@,
                mime_type: mime_type@,
            },
            Parts::FunctionCall { id, name, args } => PartsView::FunctionCall {
                id: id@,
                name: name@,
                args: args@,
            },
            Parts::FunctionResponse { id, name, response } => PartsView::FunctionResponse {
                id: id@,
                name: name@,
                response: response@,
            },
            Parts::VideoMetadata { start_offset, end_offset } => PartsView::VideoMetadata {
                start_offset: start_offset@,
                end_offset: end_offset@,
            },
        }
    }
}

impl DeepView for Parts {
    type V = PartsView;

    open spec fn deep_view(&self) -> PartsView {
        self@
    }
}

impl PartsView {
    /// The kind of a part.
    pub open spec fn kind(self) -> PartKind {
        match self {
            PartsView::Text { .. } => PartKind::Text,
            PartsView::Thought { .. } => PartKind::Thought,
            PartsView::ExecutableCode { .. } => PartKind::ExecutableCode,
            PartsView::CodeExecutionResult { .. } => PartKind::CodeExecutionResult,
            PartsView::FileData { .. } => PartKind::FileData,
            PartsView::InlineData { .. } => PartKind::InlineData,
            PartsView::FunctionCall { .. } => PartKind::FunctionCall,
            PartsView::FunctionResponse { .. } => PartKind::FunctionResponse,
            PartsView::VideoMetadata { .. } => PartKind::VideoMetadata,
        }
    }

    /// The wire form of a part: an object holding the fields of its kind and
    /// nothing else, under their camelCase names.
    pub open spec fn wire(self) -> JsonView {
        match self {
            PartsView::Text { text } => JsonView::Object(seq![("text"@, JsonView::Str(text))]),
            PartsView::Thought { thought } => JsonView::Object(
                seq![("thought"@, JsonView::Bool(thought))],
            ),
            PartsView::ExecutableCode { code, language } => JsonView::Object(
                seq![("code"@, JsonView::Str(code)), ("language"@, language.wire())],
            ),
            PartsView::CodeExecutionResult { outcome, output } => JsonView::Object(
                seq![("outcome"@, outcome.wire()), ("output"@, JsonView::Str(output))],
            ),
            PartsView::FileData { file_uri, mime_type } => JsonView::Object(
                seq![("fileUri"@, JsonView::Str(file_uri)), ("mimeType"@, JsonView::Str(mime_type))],
            ),
            PartsView::InlineData { data, mime_type } => JsonView::Object(
                seq![("data"@, JsonView::Str(data)), ("mimeType"@, JsonView::Str(mime_type))],
            ),
            PartsView::FunctionCall { id, name, args } => JsonView::Object(
                seq![("id"@, JsonView::Str(id)), ("name"@, JsonView::Str(name)), ("args"@, args)],
            ),
            PartsView::FunctionResponse { id, name, response } => JsonView::Object(
                seq![
                    ("id"@, JsonView::Str(id)),
                    ("name"@, JsonView::Str(name)),
                    ("response"@, response),
                ],
            ),
            PartsView::VideoMetadata { start_offset, end_offset } => JsonView::Object(
                seq![
                    ("startOffset"@, JsonView::Str(start_offset)),
                    ("endOffset"@, JsonView::Str(end_offset)),
                ],
            ),
        }
    }

    /// The part of the given kind that an object's members hold: each field
    /// of that kind must be present with a value of its type. Members that
    /// the kind does not name are ignored.
    pub open spec fn read_as(m: Members, kind: PartKind) -> Result<PartsView, DecodeError> {
        match kind {
            PartKind::Text => match req_text(m, "text"@, "text"@) {
                Ok(text) => Ok(PartsView::Text { text }),
                Err(e) => Err(e),
            },
            PartKind::Thought => match req_flag(m, "thought"@, "thought"@) {
                Ok(thought) => Ok(PartsView::Thought { thought }),
                Err(e) => Err(e),
            },
            PartKind::ExecutableCode => match req_text(m, "code"@, "code"@) {
                Ok(code) => match req(
                    m,
                    "language"@,
                    "language"@,
                    |j: JsonView| CodeLanguage::read(j),
                ) {
                    Ok(language) => Ok(PartsView::ExecutableCode { code, language }),
                    Err(e) => Err(e),
                },
                Err(e) => Err(e),
            },
            PartKind::CodeExecutionResult => match req(
                m,
                "outcome"@,
                "outcome"@,
                |j: JsonView| Outcome::read(j),
            ) {
                Ok(outcome) => match req_text(m, "output"@, "output"@) {
                    Ok(output) => Ok(PartsView::CodeExecutionResult { outcome, output }),
                    Err(e) => Err(e),
                },
                Err(e) => Err(e),
            },
            PartKind::FileData => match req_text(m, "fileUri"@, "file_uri"@) {
                Ok(file_uri) => match req_text(m, "mimeType"@, "mime_type"@) {
                    Ok(mime_type) => Ok(PartsView::FileData { file_uri, mime_type }),
                    Err(e) => Err(e),
                },
                Err(e) => Err(e),
            },
            PartKind::InlineData => match req_text(m, "data"@, "data"@) {
                Ok(data) => match req_text(m, "mimeType"@, "mime_type"@) {
                    Ok(mime_type) => Ok(PartsView::InlineData { data, mime_type }),
                    Err(e) => Err(e),
                },
                Err(e) => Err(e),
            },
            PartKind::FunctionCall => match req_text(m, "id"@, "id"@) {
                Ok(id) => match req_text(m, "name"@, "name"@) {
                    Ok(name) => match required(m, "args"@, "args"@) {
                        Ok(args) => Ok(PartsView::FunctionCall { id, name, args }),
                        Err(e) => Err(e),
                    },
                    Err(e) => Err(e),
                },
                Err(e) => Err(e),
            },
            PartKind::FunctionResponse => match req_text(m, "id"@, "id"@) {
                Ok(id) => match req_text(m, "name"@, "name"@) {
                    Ok(name) => match required(m, "response"@, "response"@) {
                        Ok(response) => Ok(PartsView::FunctionResponse { id, name, response }),
                        Err(e) => Err(e),
                    },
                    Err(e) => Err(e),
                },
                Err(e) => Err(e),
            },
            PartKind::VideoMetadata => match req_text(m, "startOffset"@, "start_offset"@) {
                Ok(start_offset) => match req_text(m, "endOffset"@, "end_offset"@) {
                    Ok(end_offset) => Ok(PartsView::VideoMetadata { start_offset, end_offset }),
                    Err(e) => Err(e),
                },
                Err(e) => Err(e),
            },
        }
    }

    /// Whether a value has the shape of a part of the given kind.
    pub open spec fn has_shape(j: JsonView, kind: PartKind) -> bool {
        j is Object && PartsView::read_as(j->Object_0, kind) is Ok
    }

    /// The part that an object's members hold: that of the first kind, in
    /// the order of precedence, whose shape they have.
    pub open spec fn read_members(m: Members) -> Result<PartsView, DecodeError> {
        if PartsView::read_as(m, PartKind::Text) is Ok {
            PartsView::read_as(m, PartKind::Text)
        } else if PartsView::read_as(m, PartKind::Thought) is Ok {
            PartsView::read_as(m, PartKind::Thought)
        } else if PartsView::read_as(m, PartKind::ExecutableCode) is Ok {
            PartsView::read_as(m, PartKind::ExecutableCode)
        } else if PartsView::read_as(m, PartKind::CodeExecutionResult) is Ok {
            PartsView::read_as(m, PartKind::CodeExecutionResult)
        } else if PartsView::read_as(m, PartKind::FileData) is Ok {
            PartsView::read_as(m, PartKind::FileData)
        } else if PartsView::read_as(m, PartKind::InlineData) is Ok {
            PartsView::read_as(m, PartKind::InlineData)
        } else if PartsView::read_as(m, PartKind::FunctionCall) is Ok {
            PartsView::read_as(m, PartKind::FunctionCall)
        } else if PartsView::read_as(m, PartKind::FunctionResponse) is Ok {
            PartsView::read_as(m, PartKind::FunctionResponse)
        } else if PartsView::read_as(m, PartKind::VideoMetadata) is Ok {
            PartsView::read_as(m, PartKind::VideoMetadata)
        } else {
            Err(DecodeError::UnrecognizedPart)
        }
    }

    /// The part that a wire value holds. A value that is no object, or an
    /// object with the shape of no kind, is an
    /// [`UnrecognizedPart`](DecodeError::UnrecognizedPart).
    pub open spec fn read(j: JsonView) -> Result<PartsView, DecodeError> {
        match j {
            JsonView::Object(m) => PartsView::read_members(m),
            _ => Err(DecodeError::UnrecognizedPart),
        }
    }
}

impl Parts {
    /// The kind of this part.
    pub fn kind(&self) -> (r: PartKind)
        ensures
            r == self@.kind(),
    {
        match self {
            Parts::Text { .. } => PartKind::Text,
            Parts::Thought { .. } => PartKind::Thought,
            Parts::ExecutableCode { .. } => PartKind::ExecutableCode,
            Parts::CodeExecutionResult { .. } => PartKind::CodeExecutionResult,
            Parts::FileData { .. } => PartKind::FileData,
            Parts::InlineData { .. } => PartKind::InlineData,
            Parts::FunctionCall { .. } => PartKind::FunctionCall,
            Parts::FunctionResponse { .. } => PartKind::FunctionResponse,
            Parts::VideoMetadata { .. } => PartKind::VideoMetadata,
        }
    }

    /// What a part shows as text: the text of a text part, nothing for any
    /// other kind.
    pub fn to_text(&self) -> (r: String)
        ensures
            r@ == (match self@ {
                PartsView::Text { text } => text,
                _ => Seq::<char>::empty(),
            }),
    {
        match self {
            Parts::Text { text } => text.clone(),
            _ => String::new(),
        }
    }

    /// Reads the members of an object as a part of one given kind.
    pub fn decode_as(m: &Vec<(String, Json)>, kind: PartKind) -> (r: Result<Parts, DecodeError>)
        ensures
            lift(r) == PartsView::read_as(m.deep_view(), kind),
    {
        match kind {
            PartKind::Text => {
                let text = get_text(m, "text", "text")?;
                Ok(Parts::Text { text })
            },
            PartKind::Thought => {
                let thought = get_flag(m, "thought", "thought")?;
                Ok(Parts::Thought { thought })
            },
            PartKind::ExecutableCode => {
                let code = get_text(m, "code", "code")?;
                let language = CodeLanguage::decode(field(m, "language", "language")?)?;
                Ok(Parts::ExecutableCode { code, language })
            },
            PartKind::CodeExecutionResult => {
                let outcome = Outcome::decode(field(m, "outcome", "outcome")?)?;
                let output = get_text(m, "output", "output")?;
                Ok(Parts::CodeExecutionResult { outcome, output })
            },
            PartKind::FileData => {
                let file_uri = get_text(m, "fileUri", "file_uri")?;
                let mime_type = get_text(m, "mimeType", "mime_type")?;
                Ok(Parts::FileData { file_uri, mime_type })
            },
            PartKind::InlineData => {
                let data = get_text(m, "data", "data")?;
                let mime_type = get_text(m, "mimeType", "mime_type")?;
                Ok(Parts::InlineData { data, mime_type })
            },
            PartKind::FunctionCall => {
                let id = get_text(m, "id", "id")?;
                let name = get_text(m, "name", "name")?;
                let args = field(m, "args", "args")?.clone();
                Ok(Parts::FunctionCall { id, name, args })
            },
            PartKind::FunctionResponse => {
                let id = get_text(m, "id", "id")?;
                let name = get_text(m, "name", "name")?;
                let response = field(m, "response", "response")?.clone();
                Ok(Parts::FunctionResponse { id, name, response })
            },
            PartKind::VideoMetadata => {
                let start_offset = get_text(m, "startOffset", "start_offset")?;
                let end_offset = get_text(m, "endOffset", "end_offset")?;
                Ok(Parts::VideoMetadata { start_offset, end_offset })
            },
        }
    }

    /// Reads a wire value as a part. The kinds are tried in their order of
    /// precedence and the first whose shape the value has is taken; a value
    /// with the shape of none gives
    /// [`UnrecognizedPart`](DecodeError::UnrecognizedPart).
    pub fn decode(j: &Json) -> (r: Result<Parts, DecodeError>)
        ensures
            lift(r) == PartsView::read(j@),
    {
        let m = match j.as_object() {
            Some(m) => m,
            None => {
                return Err(DecodeError::UnrecognizedPart);
            },
        };
        if let Ok(p) = Parts::decode_as(m, PartKind::Text) {
            return Ok(p);
        }
        if let Ok(p) = Parts::decode_as(m, PartKind::Thought) {
            return Ok(p);
        }
        if let Ok(p) = Parts::decode_as(m, PartKind::ExecutableCode) {
            return Ok(p);
        }
        if let Ok(p) = Parts::decode_as(m, PartKind::CodeExecutionResult) {
            return Ok(p);
        }
        if let Ok(p) = Parts::decode_as(m, PartKind::FileData) {
            return Ok(p);
        }
        if let Ok(p) = Parts::decode_as(m, PartKind::InlineData) {
            return Ok(p);
        }
        if let Ok(p) = Parts::decode_as(m, PartKind::FunctionCall) {
            return Ok(p);
        }
        if let Ok(p) = Parts::decode_as(m, PartKind::FunctionResponse) {
            return Ok(p);
        }
        if let Ok(p) = Parts::decode_as(m, PartKind::VideoMetadata) {
            return Ok(p);
        }
        Err(DecodeError::UnrecognizedPart)
    }

    /// Writes a part in its wire form: the fields of its kind, with no tag.
    pub fn encode(&self) -> (r: Json)
        ensures
            r@ == self@.wire(),
    {
        let mut m: Vec<(String, Json)> = Vec::new();
        match self {
            Parts::Text { text } => {
                m.push(entry("text", Json::Str(text.clone())));
            },
            Parts::Thought { thought } => {
                m.push(entry("thought", Json::Bool(*thought)));
            },
            Parts::ExecutableCode { code, language } => {
                m.push(entry("code", Json::Str(code.clone())));
                m.push(entry("language", language.encode()));
            },
            Parts::CodeExecutionResult { outcome, output } => {
                m.push(entry("outcome", outcome.encode()));
                m.push(entry("output", Json::Str(output.clone())));
            },
            Parts::FileData { file_uri, mime_type } => {
                m.push(entry("fileUri", Json::Str(file_uri.clone())));
                m.push(entry("mimeType", Json::Str(mime_type.clone())));
            },
            Parts::InlineData { data, mime_type } => {
                m.push(entry("data", Json::Str(data.clone())));
                m.push(entry("mimeType", Json::Str(mime_type.clone())));
            },
            Parts::FunctionCall { id, name, args } => {
                m.push(entry("id", Json::Str(id.clone())));
                m.push(entry("name", Json::Str(name.clone())));
                m.push(entry("args", args.clone()));
            },
            Parts::FunctionResponse { id, name, response } => {
                m.push(entry("id", Json::Str(id.clone())));
                m.push(entry("name", Json::Str(name.clone())));
                m.push(entry("response", response.clone()));
            },
            Parts::VideoMetadata { start_offset, end_offset } => {
                m.push(entry("startOffset", Json::Str(start_offset.clone())));
                m.push(entry("endOffset", Json::Str(end_offset.clone())));
            },
        }
        assert(m.deep_view() =~= self@.wire()->Object_0);
        Json::object(m)
    }
}

impl Clone for Parts {
    fn clone(&self) -> (r: Self)
        ensures
            r@ == self@,
    {
        match self {
            Parts::Text { text } => Parts::Text { text: text.clone() },
            Parts::Thought { thought } => Parts::Thought { thought: *thought },
            Parts::ExecutableCode { code, language } => Parts::ExecutableCode {
                code: code.clone(),
                language: *language,
            },
            Parts::CodeExecutionResult { outcome, output } => Parts::CodeExecutionResult {
                outcome: *outcome,
                output: output.clone(),
            },
            Parts::FileData { file_uri, mime_type } => Parts::FileData {
                file_uri: file_uri.clone(),
                mime_type: mime_type.clone(),
            },
            Parts::InlineData { data, mime_type } => Parts::InlineData {
                data: data.clone(),
                mime_type: mime_type.clone(),
            },
            Parts::FunctionCall { id, name, args } => Parts::FunctionCall {
                id: id.clone(),
                name: name.clone(),
                args: args.clone(),
            },
            Parts::FunctionResponse { id, name, response } => Parts::FunctionResponse {
                id: id.clone(),
                name: name.clone(),
                response: response.clone(),
            },
            Parts::VideoMetadata { start_offset, end_offset } => Parts::VideoMetadata {
                start_offset: start_offset.clone(),
                end_offset: end_offset.clone(),
            },
        }
    }
}

/// The names under which the fields of a part are read and written are
/// pairwise different wherever one kind could be taken for another.
proof fn lemma_field_names()
    ensures
        "text"@ != "thought"@,
        "text"@ != "code"@,
        "text"@ != "language"@,
        "text"@ != "outcome"@,
        "text"@ != "output"@,
        "text"@ != "fileUri"@,
        "text"@ != "mimeType"@,
        "text"@ != "data"@,
        "text"@ != "id"@,
        "text"@ != "name"@,
        "text"@ != "args"@,
        "text"@ != "response"@,
        "text"@ != "startOffset"@,
        "text"@ != "endOffset"@,
        "thought"@ != "code"@,
        "thought"@ != "language"@,
        "thought"@ != "outcome"@,
        "thought"@ != "output"@,
        "thought"@ != "fileUri"@,
        "thought"@ != "mimeType"@,
        "thought"@ != "data"@,
        "thought"@ != "id"@,
        "thought"@ != "name"@,
        "thought"@ != "args"@,
        "thought"@ != "response"@,
        "thought"@ != "startOffset"@,
        "thought"@ != "endOffset"@,
        "code"@ != "language"@,
        "code"@ != "outcome"@,
        "code"@ != "output"@,
        "code"@ != "fileUri"@,
        "code"@ != "mimeType"@,
        "code"@ != "data"@,
        "code"@ != "id"@,
        "code"@ != "name"@,
        "code"@ != "args"@,
        "code"@ != "response"@,
        "code"@ != "startOffset"@,
        "code"@ != "endOffset"@,
        "outcome"@ != "output"@,
        "outcome"@ != "fileUri"@,
        "outcome"@ != "mimeType"@,
        "outcome"@ != "data"@,
        "outcome"@ != "id"@,
        "outcome"@ != "name"@,
        "outcome"@ != "args"@,
        "outcome"@ != "response"@,
        "outcome"@ != "startOffset"@,
        "outcome"@ != "endOffset"@,
        "fileUri"@ != "mimeType"@,
        "fileUri"@ != "data"@,
        "fileUri"@ != "id"@,
        "fileUri"@ != "name"@,
        "fileUri"@ != "args"@,
        "fileUri"@ != "response"@,
        "fileUri"@ != "startOffset"@,
        "fileUri"@ != "endOffset"@,
        "file_uri"@ != "data"@,
        "file_uri"@ != "mimeType"@,
        "file_uri"@ != "id"@,
        "file_uri"@ != "name"@,
        "file_uri"@ != "args"@,
        "file_uri"@ != "response"@,
        "file_uri"@ != "startOffset"@,
        "file_uri"@ != "endOffset"@,
        "data"@ != "mimeType"@,
        "data"@ != "id"@,
        "data"@ != "name"@,
        "data"@ != "args"@,
        "data"@ != "response"@,
        "data"@ != "startOffset"@,
        "data"@ != "endOffset"@,
        "id"@ != "name"@,
        "id"@ != "args"@,
        "id"@ != "response"@,
        "id"@ != "startOffset"@,
        "id"@ != "endOffset"@,
        "name"@ != "args"@,
        "name"@ != "response"@,
        "args"@ != "response"@,
        "startOffset"@ != "endOffset"@,
        "LANGUAGE_UNSPECIFIED"@ != "Python"@,
        "OUTCOME_UNSPECIFIED"@ != "OUTCOME_OK"@,
        "OUTCOME_UNSPECIFIED"@ != "OUTCOME_FAILED"@,
        "OUTCOME_UNSPECIFIED"@ != "OUTCOME_DEADLINE_EXCEEDED"@,
        "OUTCOME_OK"@ != "OUTCOME_FAILED"@,
        "OUTCOME_OK"@ != "OUTCOME_DEADLINE_EXCEEDED"@,
        "OUTCOME_FAILED"@ != "OUTCOME_DEADLINE_EXCEEDED"@,
{
    reveal_strlit("text");
    reveal_strlit("thought");
    reveal_strlit("code");
    reveal_strlit("language");
    reveal_strlit("outcome");
    reveal_strlit("output");
    reveal_strlit("fileUri");
    reveal_strlit("file_uri");
    reveal_strlit("mimeType");
    reveal_strlit("data");
    reveal_strlit("id");
    reveal_strlit("name");
    reveal_strlit("args");
    reveal_strlit("response");
    reveal_strlit("startOffset");
    reveal_strlit("endOffset");
    reveal_strlit("LANGUAGE_UNSPECIFIED");
    reveal_strlit("Python");
    reveal_strlit("OUTCOME_UNSPECIFIED");
    reveal_strlit("OUTCOME_OK");
    reveal_strlit("OUTCOME_FAILED");
    reveal_strlit("OUTCOME_DEADLINE_EXCEEDED");
    assert("text"@[1] != "thought"@[1]);
    assert("outcome"@[3] != "output"@[3]);
    assert("fileUri"@[0] != "mimeType"@[0]);
    assert("file_uri"@[0] != "mimeType"@[0]);
    assert("text"@[0] != "code"@[0]);
    assert("text"@[0] != "data"@[0]);
    assert("text"@[0] != "name"@[0]);
    assert("text"@[0] != "args"@[0]);
    assert("code"@[0] != "data"@[0]);
    assert("code"@[0] != "name"@[0]);
    assert("code"@[0] != "args"@[0]);
    assert("data"@[0] != "name"@[0]);
    assert("data"@[0] != "args"@[0]);
    assert("name"@[0] != "args"@[0]);
    assert("language"@[0] != "response"@[0]);
    assert("thought"@[0] != "outcome"@[0]);
    assert("fileUri"@[0] != "outcome"@[0]);
    assert("startOffset"@[0] != "endOffset"@[0]);
    assert("OUTCOME_OK"@[8] != "OUTCOME_FAILED"@[8]);
    assert("LANGUAGE_UNSPECIFIED"@[0] != "Python"@[0]);
    assert("OUTCOME_UNSPECIFIED"@[8] != "OUTCOME_DEADLINE_EXCEEDED"@[8]);
}

/// A language is read back from its wire form.
pub proof fn lemma_language_round_trip(language: CodeLanguage)
    ensures
        CodeLanguage::read(language.wire()) == Ok::<CodeLanguage, DecodeError>(language),
{
    lemma_field_names();
}

/// An outcome is read back from its wire form.
pub proof fn lemma_outcome_round_trip(outcome: Outcome)
    ensures
        Outcome::read(outcome.wire()) == Ok::<Outcome, DecodeError>(outcome),
{
    lemma_field_names();
}

/// Round trip: decoding the wire form of a part gives that part back,
/// whatever the part.
pub proof fn lemma_round_trip(p: PartsView)
    ensures
        PartsView::read(p.wire()) == Ok::<PartsView, DecodeError>(p),
{
    lemma_field_names();
    reveal_with_fuel(find_from, 4);
    let m = p.wire()->Object_0;
    match p {
        PartsView::Text { text } => {
            assert(PartsView::read_as(m, PartKind::Text) == Ok::<PartsView, DecodeError>(p));
        },
        PartsView::Thought { thought } => {
            assert(PartsView::read_as(m, PartKind::Text) is Err);
            assert(PartsView::read_as(m, PartKind::Thought) == Ok::<PartsView, DecodeError>(p));
        },
        PartsView::ExecutableCode { code, language } => {
            lemma_language_round_trip(language);
            assert(PartsView::read_as(m, PartKind::Text) is Err);
            assert(PartsView::read_as(m, PartKind::Thought) is Err);
            assert(PartsView::read_as(m, PartKind::ExecutableCode) == Ok::<PartsView, DecodeError>(p));
        },
        PartsView::CodeExecutionResult { outcome, output } => {
            lemma_outcome_round_trip(outcome);
            assert(PartsView::read_as(m, PartKind::Text) is Err);
            assert(PartsView::read_as(m, PartKind::Thought) is Err);
            assert(PartsView::read_as(m, PartKind::ExecutableCode) is Err);
            assert(PartsView::read_as(m, PartKind::CodeExecutionResult) == Ok::<
                PartsView,
                DecodeError,
            >(p));
        },
        PartsView::FileData { file_uri, mime_type } => {
            assert(PartsView::read_as(m, PartKind::Text) is Err);
            assert(PartsView::read_as(m, PartKind::Thought) is Err);
            assert(PartsView::read_as(m, PartKind::ExecutableCode) is Err);
            assert(PartsView::read_as(m, PartKind::CodeExecutionResult) is Err);
            assert(PartsView::read_as(m, PartKind::FileData) == Ok::<PartsView, DecodeError>(p));
        },
        PartsView::InlineData { data, mime_type } => {
            assert(PartsView::read_as(m, PartKind::Text) is Err);
            assert(PartsView::read_as(m, PartKind::Thought) is Err);
            assert(PartsView::read_as(m, PartKind::ExecutableCode) is Err);
            assert(PartsView::read_as(m, PartKind::CodeExecutionResult) is Err);
            assert(PartsView::read_as(m, PartKind::FileData) is Err);
            assert(PartsView::read_as(m, PartKind::InlineData) == Ok::<PartsView, DecodeError>(p));
        },
        PartsView::FunctionCall { id, name, args } => {
            assert(PartsView::read_as(m, PartKind::Text) is Err);
            assert(PartsView::read_as(m, PartKind::Thought) is Err);
            assert(PartsView::read_as(m, PartKind::ExecutableCode) is Err);
            assert(PartsView::read_as(m, PartKind::CodeExecutionResult) is Err);
            assert(PartsView::read_as(m, PartKind::FileData) is Err);
            assert(PartsView::read_as(m, PartKind::InlineData) is Err);
            assert(PartsView::read_as(m, PartKind::FunctionCall) == Ok::<PartsView, DecodeError>(p));
        },
        PartsView::FunctionResponse { id, name, response } => {
            assert(PartsView::read_as(m, PartKind::Text) is Err);
            assert(PartsView::read_as(m, PartKind::Thought) is Err);
            assert(PartsView::read_as(m, PartKind::ExecutableCode) is Err);
            assert(PartsView::read_as(m, PartKind::CodeExecutionResult) is Err);
            assert(PartsView::read_as(m, PartKind::FileData) is Err);
            assert(PartsView::read_as(m, PartKind::InlineData) is Err);
            assert(PartsView::read_as(m, PartKind::FunctionCall) is Err);
            assert(PartsView::read_as(m, PartKind::FunctionResponse) == Ok::<
                PartsView,
                DecodeError,
            >(p));
        },
        PartsView::VideoMetadata { start_offset, end_offset } => {
            assert(PartsView::read_as(m, PartKind::Text) is Err);
            assert(PartsView::read_as(m, PartKind::Thought) is Err);
            assert(PartsView::read_as(m, PartKind::ExecutableCode) is Err);
            assert(PartsView::read_as(m, PartKind::CodeExecutionResult) is Err);
            assert(PartsView::read_as(m, PartKind::FileData) is Err);
            assert(PartsView::read_as(m, PartKind::InlineData) is Err);
            assert(PartsView::read_as(m, PartKind::FunctionCall) is Err);
            assert(PartsView::read_as(m, PartKind::FunctionResponse) is Err);
            assert(PartsView::read_as(m, PartKind::VideoMetadata) == Ok::<
                PartsView,
                DecodeError,
            >(p));
        },
    }
}

/// A part read as one kind is of that kind.
pub proof fn lemma_read_as_kind(m: Members, kind: PartKind)
    requires
        PartsView::read_as(m, kind) is Ok,
    ensures
        PartsView::read_as(m, kind)->Ok_0.kind() == kind,
{
}

/// Precedence: a value with the shape of some kind decodes, and it decodes
/// to the kind earliest in the order of precedence among all those whose
/// shape it has, as that kind reads it.
pub proof fn lemma_first_shape_wins(j: JsonView, kind: PartKind)
    requires
        PartsView::has_shape(j, kind),
    ensures
        PartsView::read(j) is Ok,
        PartsView::has_shape(j, PartsView::read(j)->Ok_0.kind()),
        PartsView::read(j) == PartsView::read_as(j->Object_0, PartsView::read(j)->Ok_0.kind()),
        PartsView::read(j)->Ok_0.kind().rank() <= kind.rank(),
        forall|other: PartKind|
            other.rank() < PartsView::read(j)->Ok_0.kind().rank() ==> !PartsView::has_shape(
                j,
                other,
            ),
{
    let m = j->Object_0;
    lemma_read_as_kind(m, kind);
    if PartsView::read_as(m, PartKind::Text) is Ok {
        lemma_read_as_kind(m, PartKind::Text);
    } else if PartsView::read_as(m, PartKind::Thought) is Ok {
        lemma_read_as_kind(m, PartKind::Thought);
    } else if PartsView::read_as(m, PartKind::ExecutableCode) is Ok {
        lemma_read_as_kind(m, PartKind::ExecutableCode);
    } else if PartsView::read_as(m, PartKind::CodeExecutionResult) is Ok {
        lemma_read_as_kind(m, PartKind::CodeExecutionResult);
    } else if PartsView::read_as(m, PartKind::FileData) is Ok {
        lemma_read_as_kind(m, PartKind::FileData);
    } else if PartsView::read_as(m, PartKind::InlineData) is Ok {
        lemma_read_as_kind(m, PartKind::InlineData);
    } else if PartsView::read_as(m, PartKind::FunctionCall) is Ok {
        lemma_read_as_kind(m, PartKind::FunctionCall);
    } else if PartsView::read_as(m, PartKind::FunctionResponse) is Ok {
        lemma_read_as_kind(m, PartKind::FunctionResponse);
    } else if PartsView::read_as(m, PartKind::VideoMetadata) is Ok {
        lemma_read_as_kind(m, PartKind::VideoMetadata);
    }
}

/// A value is an unrecognized part exactly where it has the shape of no
/// kind, and decoding fails in no other way.
pub proof fn lemma_unrecognized(j: JsonView)
    ensures
        PartsView::read(j) is Err <==> forall|kind: PartKind| !PartsView::has_shape(j, kind),
        PartsView::read(j) is Err ==> PartsView::read(j) == Err::<PartsView, DecodeError>(
            DecodeError::UnrecognizedPart,
        ),
{
    if PartsView::read(j) is Err {
        assert forall|kind: PartKind| !PartsView::has_shape(j, kind) by {
            if j is Object {
                match kind {
                    PartKind::Text => {},
                    PartKind::Thought => {},
                    PartKind::ExecutableCode => {},
                    PartKind::CodeExecutionResult => {},
                    PartKind::FileData => {},
                    PartKind::InlineData => {},
                    PartKind::FunctionCall => {},
                    PartKind::FunctionResponse => {},
                    PartKind::VideoMetadata => {},
                }
            }
        }
    } else {
        let kind = PartsView::read(j)->Ok_0.kind();
        lemma_read_as_kind(j->Object_0, kind);
        assert(PartsView::has_shape(j, kind));
    }
}

} // verus!
