//! A message: an ordered sequence of parts under a role, and the turn
//! submission that carries one.

use vstd::prelude::*;
use crate::error::{lift, DecodeError};
use crate::json::{find_from, Json, JsonView, Members};
use crate::part::{lemma_round_trip, Parts, PartsView};
use crate::record::{
    entry, field, get_flag, get_text, items_of, lemma_all_reads_back, list, read_all, req, req_flag,
    req_text, write_all,
};

verus! {

/// An ordered sequence of parts with the role of their author. The order of
/// the parts is the order in which they are shown.
#[derive(Clone, Debug, PartialEq)]
pub struct NewMessage {
    pub parts: Vec<Parts>,
    pub role: String,
}

/// The model of a message.
pub struct NewMessageView {
    pub parts: Seq<PartsView>,
    pub role: Seq<char>,
}

impl View for NewMessage {
    type V = NewMessageView;

    open spec fn view(&self) -> NewMessageView {
        NewMessageView { parts: self.parts.deep_view(), role: self.role@ }
    }
}

impl DeepView for NewMessage {
    type V = NewMessageView;

    open spec fn deep_view(&self) -> NewMessageView {
        self@
    }
}

impl NewMessageView {
    /// The message that an object's members hold: `parts`, an array of
    /// parts, and `role`, a string. The first part that cannot be read fails
    /// the message with that part's error.
    pub open spec fn read_members(m: Members) -> Result<NewMessageView, DecodeError> {
        match req(m, "parts"@, "parts"@, |j: JsonView| list(j, |x: JsonView| PartsView::read(x))) {
            Ok(parts) => match req_text(m, "role"@, "role"@) {
                Ok(role) => Ok(NewMessageView { parts, role }),
                Err(e) => Err(e),
            },
            Err(e) => Err(e),
        }
    }

    /// The message that a wire value holds.
    pub open spec fn read(j: JsonView) -> Result<NewMessageView, DecodeError> {
        match j {
            JsonView::Object(m) => NewMessageView::read_members(m),
            _ => Err(DecodeError::NotAnObject),
        }
    }

    /// The wire form of a message.
    pub open spec fn wire(self) -> JsonView {
        JsonView::Object(
            seq![
                ("parts"@, JsonView::Array(self.parts.map_values(|p: PartsView| p.wire()))),
                ("role"@, JsonView::Str(self.role)),
            ],
        )
    }
}

impl NewMessage {
    /// Reads a wire value as a message.
    pub fn decode(j: &Json) -> (r: Result<NewMessage, DecodeError>)
        ensures
            lift(r) == NewMessageView::read(j@),
    {
        let m = match j.as_object() {
            Some(m) => m,
            None => {
                return Err(DecodeError::NotAnObject);
            },
        };
        let items = items_of(field(m, "parts", "parts")?)?;
        let parts = read_all(items, Parts::decode, Ghost(|x: JsonView| PartsView::read(x)))?;
        let role = get_text(m, "role", "role")?;
        Ok(NewMessage { parts, role })
    }

    /// Writes a message in its wire form.
    pub fn encode(&self) -> (r: Json)
        ensures
            r@ == self@.wire(),
    {
        let parts = write_all(&self.parts, Parts::encode, Ghost(|p: PartsView| p.wire()));
        let mut m: Vec<(String, Json)> = Vec::new();
        m.push(entry("parts", Json::array(parts)));
        m.push(entry("role", Json::Str(self.role.clone())));
        assert(m.deep_view() =~= self@.wire()->Object_0);
        Json::object(m)
    }
}

/// One turn submitted to the agent: who speaks, in which session, and what.
#[derive(Clone, Debug, PartialEq)]
pub struct RunAgentBody {
    pub app_name: String,
    pub user_id: String,
    pub session_id: String,
    pub new_message: NewMessage,
    pub streaming: bool,
}

/// The model of a turn submission.
pub struct RunAgentBodyView {
    pub app_name: Seq<char>,
    pub user_id: Seq<char>,
    pub session_id: Seq<char>,
    pub new_message: NewMessageView,
    pub streaming: bool,
}

impl View for RunAgentBody {
    type V = RunAgentBodyView;

    open spec fn view(&self) -> RunAgentBodyView {
        RunAgentBodyView {
            app_name: self.app_name@,
            user_id: self.user_id@,
            session_id: self.session_id@,
            new_message: self.new_message@,
            streaming: self.streaming,
        }
    }
}

impl DeepView for RunAgentBody {
    type V = RunAgentBodyView;

    open spec fn deep_view(&self) -> RunAgentBodyView {
        self@
    }
}

impl RunAgentBodyView {
    /// A submission is valid where its four identifying texts are all there:
    /// the application, the user, the session and the role of the message.
    pub open spec fn valid(self) -> bool {
        &&& self.app_name.len() > 0
        &&& self.user_id.len() > 0
        &&& self.session_id.len() > 0
        &&& self.new_message.role.len() > 0
    }

    /// The wire form of a submission, under the camelCase names of its
    /// fields.
    pub open spec fn wire(self) -> JsonView {
        JsonView::Object(
            seq![
                ("appName"@, JsonView::Str(self.app_name)),
                ("userId"@, JsonView::Str(self.user_id)),
                ("sessionId"@, JsonView::Str(self.session_id)),
                ("newMessage"@, self.new_message.wire()),
                ("streaming"@, JsonView::Bool(self.streaming)),
            ],
        )
    }

    /// The submission that a wire value holds.
    pub open spec fn read(j: JsonView) -> Result<RunAgentBodyView, DecodeError> {
        match j {
            JsonView::Object(m) => match req_text(m, "appName"@, "app_name"@) {
                Ok(app_name) => match req_text(m, "userId"@, "user_id"@) {
                    Ok(user_id) => match req_text(m, "sessionId"@, "session_id"@) {
                        Ok(session_id) => match req(
                            m,
                            "newMessage"@,
                            "new_message"@,
                            |x: JsonView| NewMessageView::read(x),
                        ) {
                            Ok(new_message) => match req_flag(m, "streaming"@, "streaming"@) {
                                Ok(streaming) => Ok(
                                    RunAgentBodyView {
                                        app_name,
                                        user_id,
                                        session_id,
                                        new_message,
                                        streaming,
                                    },
                                ),
                                Err(e) => Err(e),
                            },
                            Err(e) => Err(e),
                        },
                        Err(e) => Err(e),
                    },
                    Err(e) => Err(e),
                },
                Err(e) => Err(e),
            },
            _ => Err(DecodeError::NotAnObject),
        }
    }
}

impl RunAgentBody {
    /// Whether the four identifying texts of this submission are all there.
    pub fn is_valid(&self) -> (r: bool)
        ensures
            r == self@.valid(),
    {
        !self.app_name.as_str().is_empty() && !self.user_id.as_str().is_empty()
            && !self.session_id.as_str().is_empty() && !self.new_message.role.as_str().is_empty()
    }

    /// Writes a submission in its wire form.
    pub fn encode(&self) -> (r: Json)
        ensures
            r@ == self@.wire(),
    {
        let mut m: Vec<(String, Json)> = Vec::new();
        m.push(entry("appName", Json::Str(self.app_name.clone())));
        m.push(entry("userId", Json::Str(self.user_id.clone())));
        m.push(entry("sessionId", Json::Str(self.session_id.clone())));
        m.push(entry("newMessage", self.new_message.encode()));
        m.push(entry("streaming", Json::Bool(self.streaming)));
        assert(m.deep_view() =~= self@.wire()->Object_0);
        Json::object(m)
    }

    /// Reads a wire value as a submission.
    pub fn decode(j: &Json) -> (r: Result<RunAgentBody, DecodeError>)
        ensures
            lift(r) == RunAgentBodyView::read(j@),
    {
        let m = match j.as_object() {
            Some(m) => m,
            None => {
                return Err(DecodeError::NotAnObject);
            },
        };
        let app_name = get_text(m, "appName", "app_name")?;
        let user_id = get_text(m, "userId", "user_id")?;
        let session_id = get_text(m, "sessionId", "session_id")?;
        let new_message = NewMessage::decode(field(m, "newMessage", "new_message")?)?;
        let streaming = get_flag(m, "streaming", "streaming")?;
        Ok(RunAgentBody { app_name, user_id, session_id, new_message, streaming })
    }
}

/// A message is read back from its wire form, whatever the message.
pub proof fn lemma_message_round_trip(message: NewMessageView)
    ensures
        NewMessageView::read(message.wire()) == Ok::<NewMessageView, DecodeError>(message),
{
    reveal_strlit("parts");
    reveal_strlit("role");
    reveal_with_fuel(find_from, 3);
    assert("parts"@[0] != "role"@[0]);
    let write = |p: PartsView| p.wire();
    let read = |x: JsonView| PartsView::read(x);
    assert forall|i: int| 0 <= i < message.parts.len() implies read(
        write(#[trigger] message.parts[i]),
    ) == Ok::<PartsView, DecodeError>(message.parts[i]) by {
        lemma_round_trip(message.parts[i]);
    }
    lemma_all_reads_back(message.parts, write, read);
}

/// A submission is read back from its wire form, whatever the submission.
pub proof fn lemma_submission_round_trip(body: RunAgentBodyView)
    ensures
        RunAgentBodyView::read(body.wire()) == Ok::<RunAgentBodyView, DecodeError>(body),
{
    reveal_strlit("appName");
    reveal_strlit("userId");
    reveal_strlit("sessionId");
    reveal_strlit("newMessage");
    reveal_strlit("streaming");
    reveal_with_fuel(find_from, 6);
    assert("appName"@[0] != "userId"@[0]);
    assert("appName"@[0] != "sessionId"@[0]);
    assert("appName"@[0] != "newMessage"@[0]);
    assert("userId"@[0] != "sessionId"@[0]);
    assert("userId"@[0] != "newMessage"@[0]);
    assert("sessionId"@[0] != "newMessage"@[0]);
    assert("sessionId"@[1] != "streaming"@[1]);
    lemma_message_round_trip(body.new_message);
}

} // verus!
