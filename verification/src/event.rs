//! One emitted event of a run: content, and the signals that come with it.

use vstd::prelude::*;
use crate::actions::{lemma_actions_reads_back, Actions, ActionsView};
use crate::error::{lift, DecodeError};
use crate::grounding::{
    lemma_grounding_metadata_reads_back, GroundingMetadata, GroundingMetadataView,
};
use crate::json::{find, Json, JsonView, Members, Number, NumberView};
use crate::message::{lemma_message_round_trip, NewMessage, NewMessageView};
use crate::record::{
    field, get_opt_flag, get_opt_number, get_opt_text, get_opt_texts, maybe, opt, opt_flag,
    opt_flag_json, opt_number, opt_number_json, opt_text, opt_text_json, opt_texts,
    opt_texts_json, optional, push_json, push_opt_flag, push_opt_json, push_opt_number,
    push_opt_text, push_opt_texts, put, put_opt, req, group_members, lemma_texts_read_back,
};

verus! {

/// One event of a run. Only the content must be there; a time stamp is kept
/// as the number that the wire gave.
#[derive(Clone, Debug, PartialEq)]
pub struct AgentResponse {
    pub content: NewMessage,
    pub grounding_metadata: Option<GroundingMetadata>,
    pub partial: Option<bool>,
    pub turn_complete: Option<bool>,
    pub error_code: Option<String>,
    pub error_message: Option<String>,
    pub interrupted: Option<bool>,
    pub custom_metadata: Option<Json>,
    pub invocation_id: Option<String>,
    pub author: Option<String>,
    pub actions: Option<Actions>,
    pub long_running_tool_ids: Option<Vec<String>>,
    pub branch: Option<String>,
    pub id: Option<String>,
    pub timestamp: Option<Number>,
}

/// The model of [`AgentResponse`].
pub struct AgentResponseView {
    pub content: NewMessageView,
    pub grounding_metadata: Option<GroundingMetadataView>,
    pub partial: Option<bool>,
    pub turn_complete: Option<bool>,
    pub error_code: Option<Seq<char>>,
    pub error_message: Option<Seq<char>>,
    pub interrupted: Option<bool>,
    pub custom_metadata: Option<JsonView>,
    pub invocation_id: Option<Seq<char>>,
    pub author: Option<Seq<char>>,
    pub actions: Option<ActionsView>,
    pub long_running_tool_ids: Option<Seq<Seq<char>>>,
    pub branch: Option<Seq<char>>,
    pub id: Option<Seq<char>>,
    pub timestamp: Option<NumberView>,
}

impl View for AgentResponse {
    type V = AgentResponseView;

    open spec fn view(&self) -> AgentResponseView {
        AgentResponseView {
            content: self.content@,
            grounding_metadata: self.grounding_metadata.deep_view(),
            partial: self.partial,
            turn_complete: self.turn_complete,
            error_code: self.error_code.deep_view(),
            error_message: self.error_message.deep_view(),
            interrupted: self.interrupted,
            custom_metadata: self.custom_metadata.deep_view(),
            invocation_id: self.invocation_id.deep_view(),
            author: self.author.deep_view(),
            actions: self.actions.deep_view(),
            long_running_tool_ids: self.long_running_tool_ids.deep_view(),
            branch: self.branch.deep_view(),
            id: self.id.deep_view(),
            timestamp: self.timestamp.deep_view(),
        }
    }
}

impl DeepView for AgentResponse {
    type V = AgentResponseView;

    open spec fn deep_view(&self) -> AgentResponseView {
        self@
    }
}

impl AgentResponseView {
    /// The record that an object's members hold. The fields are read in
    /// the order in which the record lists them, and the first that
    /// cannot be read fails the record with its error.
    pub open spec fn read_members(m: Members) -> Result<AgentResponseView, DecodeError> {
        let content = req(m, "content"@, "content"@, |x: JsonView| NewMessageView::read(x));
        let grounding_metadata = opt(
            m,
            "groundingMetadata"@,
            "grounding_metadata"@,
            |x: JsonView| GroundingMetadataView::read(x),
        );
        let partial = opt_flag(m, "partial"@, "partial"@);
        let turn_complete = opt_flag(m, "turnComplete"@, "turn_complete"@);
        let error_code = opt_text(m, "errorCode"@, "error_code"@);
        let error_message = opt_text(m, "errorMessage"@, "error_message"@);
        let interrupted = opt_flag(m, "interrupted"@, "interrupted"@);
        let custom_metadata = optional(m, "customMetadata"@, "custom_metadata"@);
        let invocation_id = opt_text(m, "invocationId"@, "invocation_id"@);
        let author = opt_text(m, "author"@, "author"@);
        let actions = opt(m, "actions"@, "actions"@, |x: JsonView| ActionsView::read(x));
        let long_running_tool_ids = opt_texts(m, "longRunningToolIds"@, "long_running_tool_ids"@);
        let branch = opt_text(m, "branch"@, "branch"@);
        let id = opt_text(m, "id"@, "id"@);
        let timestamp = opt_number(m, "timestamp"@, "timestamp"@);
        if content is Err {
            Err(content->Err_0)
        } else if grounding_metadata is Err {
            Err(grounding_metadata->Err_0)
        } else if partial is Err {
            Err(partial->Err_0)
        } else if turn_complete is Err {
            Err(turn_complete->Err_0)
        } else if error_code is Err {
            Err(error_code->Err_0)
        } else if error_message is Err {
            Err(error_message->Err_0)
        } else if interrupted is Err {
            Err(interrupted->Err_0)
        } else if invocation_id is Err {
            Err(invocation_id->Err_0)
        } else if author is Err {
            Err(author->Err_0)
        } else if actions is Err {
            Err(actions->Err_0)
        } else if long_running_tool_ids is Err {
            Err(long_running_tool_ids->Err_0)
        } else if branch is Err {
            Err(branch->Err_0)
        } else if id is Err {
            Err(id->Err_0)
        } else if timestamp is Err {
            Err(timestamp->Err_0)
        } else {
            Ok(
                AgentResponseView {
                    content: content->Ok_0,
                    grounding_metadata: grounding_metadata->Ok_0,
                    partial: partial->Ok_0,
                    turn_complete: turn_complete->Ok_0,
                    error_code: error_code->Ok_0,
                    error_message: error_message->Ok_0,
                    interrupted: interrupted->Ok_0,
                    custom_metadata,
                    invocation_id: invocation_id->Ok_0,
                    author: author->Ok_0,
                    actions: actions->Ok_0,
                    long_running_tool_ids: long_running_tool_ids->Ok_0,
                    branch: branch->Ok_0,
                    id: id->Ok_0,
                    timestamp: timestamp->Ok_0,
                },
            )
        }
    }

    /// The record that a wire value holds.
    pub open spec fn read(j: JsonView) -> Result<AgentResponseView, DecodeError> {
        match j {
            JsonView::Object(m) => AgentResponseView::read_members(m),
            _ => Err(DecodeError::NotAnObject),
        }
    }

    /// The members of the wire form, in the order of the fields. A field
    /// that holds nothing is left out.
    pub open spec fn wire_members(self) -> Members {
        Seq::<(Seq<char>, JsonView)>::empty()
            + put("content"@, self.content.wire())
            + put_opt(
                "groundingMetadata"@,
                match self.grounding_metadata {
                    Some(t) => Some(t.wire()),
                    None => None,
                },
            )
            + put_opt("partial"@, opt_flag_json(self.partial))
            + put_opt("turnComplete"@, opt_flag_json(self.turn_complete))
            + put_opt("errorCode"@, opt_text_json(self.error_code))
            + put_opt("errorMessage"@, opt_text_json(self.error_message))
            + put_opt("interrupted"@, opt_flag_json(self.interrupted))
            + put_opt("customMetadata"@, self.custom_metadata)
            + put_opt("invocationId"@, opt_text_json(self.invocation_id))
            + put_opt("author"@, opt_text_json(self.author))
            + put_opt(
                "actions"@,
                match self.actions {
                    Some(t) => Some(t.wire()),
                    None => None,
                },
            )
            + put_opt("longRunningToolIds"@, opt_texts_json(self.long_running_tool_ids))
            + put_opt("branch"@, opt_text_json(self.branch))
            + put_opt("id"@, opt_text_json(self.id))
            + put_opt("timestamp"@, opt_number_json(self.timestamp))
    }

    /// The wire form of the record.
    pub open spec fn wire(self) -> JsonView {
        JsonView::Object(self.wire_members())
    }
}

impl AgentResponse {
    /// Reads a wire value as this record.
    pub fn decode(j: &Json) -> (r: Result<AgentResponse, DecodeError>)
        ensures
            lift(r) == AgentResponseView::read(j@),
    {
        let m = match j.as_object() {
            Some(m) => m,
            None => {
                return Err(DecodeError::NotAnObject);
            },
        };
        let content = NewMessage::decode(field(m, "content", "content")?)?;
        let grounding_metadata = match maybe(m, "groundingMetadata", "grounding_metadata") {
            Some(v) => Some(GroundingMetadata::decode(v)?),
            None => None,
        };
        let partial = get_opt_flag(m, "partial", "partial")?;
        let turn_complete = get_opt_flag(m, "turnComplete", "turn_complete")?;
        let error_code = get_opt_text(m, "errorCode", "error_code")?;
        let error_message = get_opt_text(m, "errorMessage", "error_message")?;
        let interrupted = get_opt_flag(m, "interrupted", "interrupted")?;
        let custom_metadata = match maybe(m, "customMetadata", "custom_metadata") {
            Some(v) => Some(v.clone()),
            None => None,
        };
        let invocation_id = get_opt_text(m, "invocationId", "invocation_id")?;
        let author = get_opt_text(m, "author", "author")?;
        let actions = match maybe(m, "actions", "actions") {
            Some(v) => Some(Actions::decode(v)?),
            None => None,
        };
        let long_running_tool_ids = get_opt_texts(
            m,
            "longRunningToolIds",
            "long_running_tool_ids",
        )?;
        let branch = get_opt_text(m, "branch", "branch")?;
        let id = get_opt_text(m, "id", "id")?;
        let timestamp = get_opt_number(m, "timestamp", "timestamp")?;
        Ok(
            AgentResponse {
                content,
                grounding_metadata,
                partial,
                turn_complete,
                error_code,
                error_message,
                interrupted,
                custom_metadata,
                invocation_id,
                author,
                actions,
                long_running_tool_ids,
                branch,
                id,
                timestamp,
            },
        )
    }

    /// Writes this record in its wire form.
    pub fn encode(&self) -> (r: Json)
        ensures
            r@ == self@.wire(),
    {
        let mut m: Vec<(String, Json)> = Vec::new();
        assert(m.deep_view() =~= Seq::<(Seq<char>, JsonView)>::empty());
        push_json(&mut m, "content", self.content.encode());
        push_opt_json(
            &mut m,
            "groundingMetadata",
            match &self.grounding_metadata {
                Some(t) => Some(t.encode()),
                None => None,
            },
        );
        push_opt_flag(&mut m, "partial", &self.partial);
        push_opt_flag(&mut m, "turnComplete", &self.turn_complete);
        push_opt_text(&mut m, "errorCode", &self.error_code);
        push_opt_text(&mut m, "errorMessage", &self.error_message);
        push_opt_flag(&mut m, "interrupted", &self.interrupted);
        push_opt_json(
            &mut m,
            "customMetadata",
            match &self.custom_metadata {
                Some(v) => Some(v.clone()),
                None => None,
            },
        );
        push_opt_text(&mut m, "invocationId", &self.invocation_id);
        push_opt_text(&mut m, "author", &self.author);
        push_opt_json(
            &mut m,
            "actions",
            match &self.actions {
                Some(t) => Some(t.encode()),
                None => None,
            },
        );
        push_opt_texts(&mut m, "longRunningToolIds", &self.long_running_tool_ids);
        push_opt_text(&mut m, "branch", &self.branch);
        push_opt_text(&mut m, "id", &self.id);
        push_opt_number(&mut m, "timestamp", &self.timestamp);
        Json::object(m)
    }
}

impl AgentResponseView {
    /// Whether the record is one that its wire form gives back:
    /// `custom_metadata` is not `null`; the records it holds are canonical.
    pub open spec fn canonical(self) -> bool {
        &&& self.custom_metadata != Some(JsonView::Null)
        &&& (self.actions is Some ==> self.actions->0.canonical())
    }
}

/// A canonical [`AgentResponse`] is read back from its wire form.
pub proof fn lemma_agent_response_reads_back(record: AgentResponseView)
    requires
        record.canonical(),
    ensures
        AgentResponseView::read(record.wire()) == Ok::<AgentResponseView, DecodeError>(record),
{
    broadcast use group_members;
    reveal_strlit("content");
    reveal_strlit("groundingMetadata");
    reveal_strlit("grounding_metadata");
    reveal_strlit("partial");
    reveal_strlit("turnComplete");
    reveal_strlit("turn_complete");
    reveal_strlit("errorCode");
    reveal_strlit("error_code");
    reveal_strlit("errorMessage");
    reveal_strlit("error_message");
    reveal_strlit("interrupted");
    reveal_strlit("customMetadata");
    reveal_strlit("custom_metadata");
    reveal_strlit("invocationId");
    reveal_strlit("invocation_id");
    reveal_strlit("author");
    reveal_strlit("actions");
    reveal_strlit("longRunningToolIds");
    reveal_strlit("long_running_tool_ids");
    reveal_strlit("branch");
    reveal_strlit("id");
    reveal_strlit("timestamp");
    assert("content"@[0] == 'c');
    assert("groundingMetadata"@[0] == 'g');
    assert("partial"@[0] == 'p');
    assert("turnComplete"@[0] == 't');
    assert("errorCode"@[0] == 'e');
    assert("errorMessage"@[0] == 'e');
    assert("interrupted"@[0] == 'i');
    assert("content"@[1] == 'o');
    assert("customMetadata"@[1] == 'u');
    assert("invocationId"@[0] == 'i');
    assert("author"@[0] == 'a');
    assert("actions"@[0] == 'a');
    assert("longRunningToolIds"@[0] == 'l');
    assert("branch"@[0] == 'b');
    assert("id"@[0] == 'i');
    assert("timestamp"@[0] == 't');
    assert("customMetadata"@[0] == 'c');
    assert("grounding_metadata"@[0] == 'g');
    assert("grounding_metadata"@[9] == '_');
    assert("groundingMetadata"@[9] == 'M');
    assert("turnComplete"@[1] == 'u');
    assert("timestamp"@[1] == 'i');
    assert("turn_complete"@[0] == 't');
    assert("turn_complete"@[4] == '_');
    assert("turnComplete"@[4] == 'C');
    assert("turn_complete"@[1] == 'u');
    assert("errorCode"@[5] == 'C');
    assert("errorMessage"@[5] == 'M');
    assert("error_code"@[0] == 'e');
    assert("error_code"@[5] == '_');
    assert("error_message"@[0] == 'e');
    assert("error_message"@[5] == '_');
    assert("interrupted"@[2] == 't');
    assert("invocationId"@[2] == 'v');
    assert("interrupted"@[1] == 'n');
    assert("id"@[1] == 'd');
    assert("custom_metadata"@[1] == 'u');
    assert("custom_metadata"@[0] == 'c');
    assert("custom_metadata"@[6] == '_');
    assert("customMetadata"@[6] == 'M');
    assert("invocationId"@[1] == 'n');
    assert("invocation_id"@[0] == 'i');
    assert("invocation_id"@[2] == 'v');
    assert("invocation_id"@[10] == '_');
    assert("invocationId"@[10] == 'I');
    assert("invocation_id"@[1] == 'n');
    assert("author"@[1] == 'u');
    assert("actions"@[1] == 'c');
    assert("long_running_tool_ids"@[0] == 'l');
    assert("long_running_tool_ids"@[4] == '_');
    assert("longRunningToolIds"@[4] == 'R');
    let m = record.wire_members();
    assert(find(m, "content"@) == Some(record.content.wire()));
    lemma_message_round_trip(record.content);
    let content = req(m, "content"@, "content"@, |x: JsonView| NewMessageView::read(x));
    assert(content == Ok::<NewMessageView, DecodeError>(record.content));
    assert(
        find(m, "groundingMetadata"@) == (
            match record.grounding_metadata { Some(t) => Some(t.wire()), None => None::<JsonView> }
        )
    );
    assert(find(m, "grounding_metadata"@) is None);
    if record.grounding_metadata is Some {
        lemma_grounding_metadata_reads_back(record.grounding_metadata->0);
    }
    let grounding_metadata = opt(
        m,
        "groundingMetadata"@,
        "grounding_metadata"@,
        |x: JsonView| GroundingMetadataView::read(x),
    );
    assert(grounding_metadata == Ok::<
        Option<GroundingMetadataView>,
        DecodeError,
    >(record.grounding_metadata));
    assert(find(m, "partial"@) == opt_flag_json(record.partial));
    let partial = opt_flag(m, "partial"@, "partial"@);
    assert(partial == Ok::<Option<bool>, DecodeError>(record.partial));
    assert(find(m, "turnComplete"@) == opt_flag_json(record.turn_complete));
    assert(find(m, "turn_complete"@) is None);
    let turn_complete = opt_flag(m, "turnComplete"@, "turn_complete"@);
    assert(turn_complete == Ok::<Option<bool>, DecodeError>(record.turn_complete));
    assert(find(m, "errorCode"@) == opt_text_json(record.error_code));
    assert(find(m, "error_code"@) is None);
    let error_code = opt_text(m, "errorCode"@, "error_code"@);
    assert(error_code == Ok::<Option<Seq<char>>, DecodeError>(record.error_code));
    assert(find(m, "errorMessage"@) == opt_text_json(record.error_message));
    assert(find(m, "error_message"@) is None);
    let error_message = opt_text(m, "errorMessage"@, "error_message"@);
    assert(error_message == Ok::<Option<Seq<char>>, DecodeError>(record.error_message));
    assert(find(m, "interrupted"@) == opt_flag_json(record.interrupted));
    let interrupted = opt_flag(m, "interrupted"@, "interrupted"@);
    assert(interrupted == Ok::<Option<bool>, DecodeError>(record.interrupted));
    assert(find(m, "customMetadata"@) == record.custom_metadata);
    assert(find(m, "custom_metadata"@) is None);
    let custom_metadata = optional(m, "customMetadata"@, "custom_metadata"@);
    assert(custom_metadata == record.custom_metadata);
    assert(find(m, "invocationId"@) == opt_text_json(record.invocation_id));
    assert(find(m, "invocation_id"@) is None);
    let invocation_id = opt_text(m, "invocationId"@, "invocation_id"@);
    assert(invocation_id == Ok::<Option<Seq<char>>, DecodeError>(record.invocation_id));
    assert(find(m, "author"@) == opt_text_json(record.author));
    let author = opt_text(m, "author"@, "author"@);
    assert(author == Ok::<Option<Seq<char>>, DecodeError>(record.author));
    assert(
        find(m, "actions"@) == (
            match record.actions { Some(t) => Some(t.wire()), None => None::<JsonView> }
        )
    );
    if record.actions is Some {
        lemma_actions_reads_back(record.actions->0);
    }
    let actions = opt(m, "actions"@, "actions"@, |x: JsonView| ActionsView::read(x));
    assert(actions == Ok::<Option<ActionsView>, DecodeError>(record.actions));
    assert(find(m, "longRunningToolIds"@) == opt_texts_json(record.long_running_tool_ids));
    assert(find(m, "long_running_tool_ids"@) is None);
    if record.long_running_tool_ids is Some {
        lemma_texts_read_back(record.long_running_tool_ids->0);
    }
    let long_running_tool_ids = opt_texts(m, "longRunningToolIds"@, "long_running_tool_ids"@);
    assert(long_running_tool_ids == Ok::<
        Option<Seq<Seq<char>>>,
        DecodeError,
    >(record.long_running_tool_ids));
    assert(find(m, "branch"@) == opt_text_json(record.branch));
    let branch = opt_text(m, "branch"@, "branch"@);
    assert(branch == Ok::<Option<Seq<char>>, DecodeError>(record.branch));
    assert(find(m, "id"@) == opt_text_json(record.id));
    let id = opt_text(m, "id"@, "id"@);
    assert(id == Ok::<Option<Seq<char>>, DecodeError>(record.id));
    assert(find(m, "timestamp"@) == opt_number_json(record.timestamp));
    let timestamp = opt_number(m, "timestamp"@, "timestamp"@);
    assert(timestamp == Ok::<Option<NumberView>, DecodeError>(record.timestamp));
    assert(AgentResponseView::read_members(m) == Ok::<AgentResponseView, DecodeError>(record));
}
} // verus!
