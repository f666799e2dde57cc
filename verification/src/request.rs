//! Building the submission of a turn from what the user typed and the
//! session it belongs to. Nothing here touches the network.

use vstd::prelude::*;
use vstd::string::StringExecFns;
use crate::error::{outcome, ProtocolError, ProtocolErrorView};
use crate::message::{NewMessage, NewMessageView, RunAgentBody, RunAgentBodyView};
use crate::part::{Parts, PartsView};
use crate::session::{
    CreateSessionResponse, CreateSessionResponseView, HttpRequest, HttpRequestView, Method,
};

verus! {

/// The message of a user who says `text`: one text part under the role
/// `user`.
pub open spec fn user_message(text: Seq<char>) -> NewMessageView {
    NewMessageView { parts: seq![PartsView::Text { text }], role: "user"@ }
}

/// The submission of `text` in `session`: the identity of the session, the
/// user's message, and no streaming. A session that is not active has none.
pub open spec fn run_request(session: CreateSessionResponseView, text: Seq<char>) -> Result<
    RunAgentBodyView,
    ProtocolErrorView,
> {
    if session.active() {
        Ok(
            RunAgentBodyView {
                app_name: session.app_name,
                user_id: session.user_id,
                session_id: session.id,
                new_message: user_message(text),
                streaming: false,
            },
        )
    } else {
        Err(ProtocolErrorView::InvalidSession)
    }
}

/// The submission of the fragment at `index`, where there is one.
pub open spec fn choice_request(
    session: CreateSessionResponseView,
    fragments: Seq<Seq<char>>,
    index: int,
) -> Result<Option<RunAgentBodyView>, ProtocolErrorView> {
    if 0 <= index < fragments.len() {
        match run_request(session, fragments[index]) {
            Ok(body) => Ok(Some(body)),
            Err(e) => Err(e),
        }
    } else {
        Ok(None)
    }
}

/// The request that submits a turn: a POST of the submission's wire form to
/// `<base>/run`.
pub open spec fn run_call(base: Seq<char>, body: RunAgentBodyView) -> HttpRequestView {
    HttpRequestView { method: Method::Post, url: base + "/run"@, body: Some(body.wire()) }
}

/// Builds the submission of `user_text` in `session`. A session with an
/// empty identifier gives [`InvalidSession`](ProtocolError::InvalidSession);
/// any other gives the submission, whatever the text.
pub fn build_run_request(session: &CreateSessionResponse, user_text: &str) -> (r: Result<
    RunAgentBody,
    ProtocolError,
>)
    ensures
        outcome(r) == run_request(session@, user_text@),
{
    if !session.is_active() {
        return Err(ProtocolError::InvalidSession);
    }
    let mut parts: Vec<Parts> = Vec::new();
    parts.push(Parts::Text { text: String::from_str(user_text) });
    assert(parts.deep_view() =~= seq![PartsView::Text { text: user_text@ }]);
    Ok(
        RunAgentBody {
            app_name: session.app_name.clone(),
            user_id: session.user_id.clone(),
            session_id: session.id.clone(),
            new_message: NewMessage { parts, role: String::from_str("user") },
            streaming: false,
        },
    )
}

/// Builds the submission that answers with one of the fragments drawn from
/// the last reply: the fragment at `index` becomes the user's text. Where
/// there is no fragment at `index` there is nothing to submit.
pub fn build_choice_request(
    session: &CreateSessionResponse,
    fragments: &Vec<String>,
    index: usize,
) -> (r: Result<Option<RunAgentBody>, ProtocolError>)
    ensures
        outcome(r) == choice_request(session@, fragments.deep_view(), index as int),
{
    if index < fragments.len() {
        let body = build_run_request(session, fragments[index].as_str())?;
        Ok(Some(body))
    } else {
        Ok(None)
    }
}

/// The request that submits `body` to the service under `base_url`.
pub fn run_http_request(base_url: &str, body: &RunAgentBody) -> (r: HttpRequest)
    ensures
        r@ == run_call(base_url@, body@),
{
    let mut url = String::from_str(base_url);
    url.append("/run");
    HttpRequest { method: Method::Post, url, body: Some(body.encode()) }
}

/// A submission built for an active session carries that session's
/// identifier, one text part with the user's text, the role `user`, and no
/// streaming; it is valid exactly where the session names its application
/// and its user.
pub proof fn lemma_built_request(session: CreateSessionResponseView, text: Seq<char>)
    requires
        session.active(),
    ensures
        run_request(session, text) is Ok,
        run_request(session, text)->Ok_0.session_id == session.id,
        run_request(session, text)->Ok_0.new_message.parts == seq![PartsView::Text { text }],
        run_request(session, text)->Ok_0.new_message.role == "user"@,
        !run_request(session, text)->Ok_0.streaming,
        run_request(session, text)->Ok_0.valid() <==> session.app_name.len() > 0
            && session.user_id.len() > 0,
{
    reveal_strlit("user");
}

/// The empty-session guard: without an active session no submission is
/// built, whatever the text.
pub proof fn lemma_empty_session_guard(session: CreateSessionResponseView, text: Seq<char>)
    requires
        !session.active(),
    ensures
        run_request(session, text) == Err::<RunAgentBodyView, ProtocolErrorView>(
            ProtocolErrorView::InvalidSession,
        ),
{
}

} // verus!
