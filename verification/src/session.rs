//! The session: the identity under which the turns of one user with one
//! application are kept by the service, and its lifecycle on the client.
//!
//! The client tracks one session. It is active exactly where its identifier
//! is not empty; the empty session stands for none. The manager never touches
//! the network: it says which request to send and takes what came back.

use vstd::prelude::*;
use vstd::string::StringExecFns;
use crate::error::{lift, malformed, outcome, DecodeError, ProtocolError, ProtocolErrorView};
use crate::json::{find, Json, JsonView, Members, Number, NumberView};
use crate::record::{
    get_number, get_text, group_members, push_number, push_text, put, req_number, req_text,
};
use crate::text::parsed;

verus! {

/// For whom a session is to be created.
#[derive(Clone, Debug, PartialEq)]
pub struct CreateSession {
    pub app_name: String,
    pub user_id: String,
}

/// A session as the service describes it. The time of the last update is
/// kept as the number that the wire gave.
#[derive(Debug, PartialEq)]
pub struct CreateSessionResponse {
    pub id: String,
    pub app_name: String,
    pub user_id: String,
    pub last_update_time: Number,
}

/// The model of [`CreateSessionResponse`].
pub struct CreateSessionResponseView {
    pub id: Seq<char>,
    pub app_name: Seq<char>,
    pub user_id: Seq<char>,
    pub last_update_time: NumberView,
}

impl View for CreateSessionResponse {
    type V = CreateSessionResponseView;

    open spec fn view(&self) -> CreateSessionResponseView {
        CreateSessionResponseView {
            id: self.id@,
            app_name: self.app_name@,
            user_id: self.user_id@,
            last_update_time: self.last_update_time@,
        }
    }
}

impl DeepView for CreateSessionResponse {
    type V = CreateSessionResponseView;

    open spec fn deep_view(&self) -> CreateSessionResponseView {
        self@
    }
}

impl CreateSessionResponseView {
    /// The record that an object's members hold. The fields are read in
    /// the order in which the record lists them, and the first that
    /// cannot be read fails the record with its error.
    pub open spec fn read_members(m: Members) -> Result<CreateSessionResponseView, DecodeError> {
        let id = req_text(m, "id"@, "id"@);
        let app_name = req_text(m, "appName"@, "app_name"@);
        let user_id = req_text(m, "userId"@, "user_id"@);
        let last_update_time = req_number(m, "lastUpdateTime"@, "last_update_time"@);
        if id is Err {
            Err(id->Err_0)
        } else if app_name is Err {
            Err(app_name->Err_0)
        } else if user_id is Err {
            Err(user_id->Err_0)
        } else if last_update_time is Err {
            Err(last_update_time->Err_0)
        } else {
            Ok(
                CreateSessionResponseView {
                    id: id->Ok_0,
                    app_name: app_name->Ok_0,
                    user_id: user_id->Ok_0,
                    last_update_time: last_update_time->Ok_0,
                },
            )
        }
    }

    /// The record that a wire value holds.
    pub open spec fn read(j: JsonView) -> Result<CreateSessionResponseView, DecodeError> {
        match j {
            JsonView::Object(m) => CreateSessionResponseView::read_members(m),
            _ => Err(DecodeError::NotAnObject),
        }
    }

    /// The members of the wire form, in the order of the fields. A field
    /// that holds nothing is left out.
    pub open spec fn wire_members(self) -> Members {
        Seq::<(Seq<char>, JsonView)>::empty()
            + put("id"@, JsonView::Str(self.id))
            + put("appName"@, JsonView::Str(self.app_name))
            + put("userId"@, JsonView::Str(self.user_id))
            + put("lastUpdateTime"@, JsonView::Number(self.last_update_time))
    }

    /// The wire form of the record.
    pub open spec fn wire(self) -> JsonView {
        JsonView::Object(self.wire_members())
    }
}

impl CreateSessionResponse {
    /// Reads a wire value as this record.
    pub fn decode(j: &Json) -> (r: Result<CreateSessionResponse, DecodeError>)
        ensures
            lift(r) == CreateSessionResponseView::read(j@),
    {
        let m = match j.as_object() {
            Some(m) => m,
            None => {
                return Err(DecodeError::NotAnObject);
            },
        };
        let id = get_text(m, "id", "id")?;
        let app_name = get_text(m, "appName", "app_name")?;
        let user_id = get_text(m, "userId", "user_id")?;
        let last_update_time = get_number(m, "lastUpdateTime", "last_update_time")?;
        Ok(CreateSessionResponse { id, app_name, user_id, last_update_time })
    }

    /// Writes this record in its wire form.
    pub fn encode(&self) -> (r: Json)
        ensures
            r@ == self@.wire(),
    {
        let mut m: Vec<(String, Json)> = Vec::new();
        assert(m.deep_view() =~= Seq::<(Seq<char>, JsonView)>::empty());
        push_text(&mut m, "id", &self.id);
        push_text(&mut m, "appName", &self.app_name);
        push_text(&mut m, "userId", &self.user_id);
        push_number(&mut m, "lastUpdateTime", &self.last_update_time);
        Json::object(m)
    }
}

/// Every [`CreateSessionResponse`] is read back from its wire form.
pub proof fn lemma_create_session_response_reads_back(record: CreateSessionResponseView)
    ensures
        CreateSessionResponseView::read(record.wire()) == Ok::<
            CreateSessionResponseView,
            DecodeError,
        >(record),
{
    broadcast use group_members;
    reveal_strlit("id");
    reveal_strlit("appName");
    reveal_strlit("app_name");
    reveal_strlit("userId");
    reveal_strlit("user_id");
    reveal_strlit("lastUpdateTime");
    reveal_strlit("last_update_time");
    assert("id"@[0] == 'i');
    assert("appName"@[0] == 'a');
    assert("userId"@[0] == 'u');
    assert("lastUpdateTime"@[0] == 'l');
    assert("app_name"@[0] == 'a');
    assert("app_name"@[3] == '_');
    assert("appName"@[3] == 'N');
    assert("user_id"@[0] == 'u');
    assert("user_id"@[4] == '_');
    assert("userId"@[4] == 'I');
    assert("last_update_time"@[0] == 'l');
    assert("last_update_time"@[4] == '_');
    assert("lastUpdateTime"@[4] == 'U');
    let m = record.wire_members();
    assert(find(m, "id"@) == Some(JsonView::Str(record.id)));
    let id = req_text(m, "id"@, "id"@);
    assert(id == Ok::<Seq<char>, DecodeError>(record.id));
    assert(find(m, "appName"@) == Some(JsonView::Str(record.app_name)));
    assert(find(m, "app_name"@) is None);
    let app_name = req_text(m, "appName"@, "app_name"@);
    assert(app_name == Ok::<Seq<char>, DecodeError>(record.app_name));
    assert(find(m, "userId"@) == Some(JsonView::Str(record.user_id)));
    assert(find(m, "user_id"@) is None);
    let user_id = req_text(m, "userId"@, "user_id"@);
    assert(user_id == Ok::<Seq<char>, DecodeError>(record.user_id));
    assert(find(m, "lastUpdateTime"@) == Some(JsonView::Number(record.last_update_time)));
    assert(find(m, "last_update_time"@) is None);
    let last_update_time = req_number(m, "lastUpdateTime"@, "last_update_time"@);
    assert(last_update_time == Ok::<NumberView, DecodeError>(record.last_update_time));
    assert(CreateSessionResponseView::read_members(m) == Ok::<
        CreateSessionResponseView,
        DecodeError,
    >(record));
}
impl CreateSessionResponseView {
    /// The empty session, which stands for no session.
    pub open spec fn empty() -> CreateSessionResponseView {
        CreateSessionResponseView {
            id: Seq::empty(),
            app_name: Seq::empty(),
            user_id: Seq::empty(),
            last_update_time: NumberView::Int(0),
        }
    }

    /// A session is active exactly where its identifier is not empty.
    pub open spec fn active(self) -> bool {
        self.id.len() > 0
    }

    /// The session that the body of a reply to a create call holds, once
    /// parsed. A session without an identifier is no session.
    pub open spec fn accept(j: JsonView) -> Result<CreateSessionResponseView, DecodeError> {
        match CreateSessionResponseView::read(j) {
            Ok(s) => if s.active() {
                Ok(s)
            } else {
                Err(DecodeError::EmptyIdentifier)
            },
            Err(e) => Err(e),
        }
    }
}

impl Default for CreateSessionResponse {
    /// The empty session.
    fn default() -> (r: Self)
        ensures
            r@ == CreateSessionResponseView::empty(),
    {
        CreateSessionResponse {
            id: String::new(),
            app_name: String::new(),
            user_id: String::new(),
            last_update_time: Number::Int(0),
        }
    }
}

impl Clone for CreateSessionResponse {
    fn clone(&self) -> (r: Self)
        ensures
            r@ == self@,
    {
        CreateSessionResponse {
            id: self.id.clone(),
            app_name: self.app_name.clone(),
            user_id: self.user_id.clone(),
            last_update_time: self.last_update_time.clone(),
        }
    }
}

impl CreateSessionResponse {
    /// Whether this is an active session.
    pub fn is_active(&self) -> (r: bool)
        ensures
            r == self@.active(),
    {
        !self.id.as_str().is_empty()
    }

    /// Reads the parsed body of a reply to a create call. It succeeds
    /// exactly where the value is a session with an identifier.
    pub fn accept(j: &Json) -> (r: Result<CreateSessionResponse, ProtocolError>)
        ensures
            outcome(r) == malformed(CreateSessionResponseView::accept(j@)),
    {
        match CreateSessionResponse::decode(j) {
            Ok(s) => {
                if s.is_active() {
                    Ok(s)
                } else {
                    Err(ProtocolError::MalformedResponse { cause: DecodeError::EmptyIdentifier })
                }
            },
            Err(cause) => Err(ProtocolError::MalformedResponse { cause }),
        }
    }
}

/// The method of a request.
#[derive(Clone, Copy, Debug, PartialEq, Eq, Structural)]
pub enum Method {
    Post,
    Delete,
}

/// A request for the transport to send.
#[derive(Clone, Debug, PartialEq)]
pub struct HttpRequest {
    pub method: Method,
    pub url: String,
    pub body: Option<Json>,
}

/// The model of an [`HttpRequest`].
pub struct HttpRequestView {
    pub method: Method,
    pub url: Seq<char>,
    pub body: Option<JsonView>,
}

impl View for HttpRequest {
    type V = HttpRequestView;

    open spec fn view(&self) -> HttpRequestView {
        HttpRequestView { method: self.method, url: self.url@, body: self.body.deep_view() }
    }
}

impl DeepView for HttpRequest {
    type V = HttpRequestView;

    open spec fn deep_view(&self) -> HttpRequestView {
        self@
    }
}

/// What the transport brought back: a failure of its own, or the status and
/// the body of an answer.
#[derive(Clone, Debug, PartialEq)]
pub enum Reply {
    Failed { message: String },
    Answered { status: u16, body: String },
}

/// The model of a [`Reply`].
pub enum ReplyView {
    Failed { message: Seq<char> },
    Answered { status: u16, body: Seq<char> },
}

impl View for Reply {
    type V = ReplyView;

    open spec fn view(&self) -> ReplyView {
        match self {
            Reply::Failed { message } => ReplyView::Failed { message: message@ },
            Reply::Answered { status, body } => ReplyView::Answered {
                status: *status,
                body: body@,
            },
        }
    }
}

/// A status is a success from 200 to 299.
pub open spec fn is_success(status: u16) -> bool {
    200 <= status < 300
}

/// Where sessions of a user are created: `<base>/apps/<app>/users/<user>/sessions`.
pub open spec fn sessions_url(base: Seq<char>, app: Seq<char>, user: Seq<char>) -> Seq<char> {
    base + "/apps/"@ + app + "/users/"@ + user + "/sessions"@
}

/// Where one session lives: the address of the user's sessions, a slash and
/// the session's identifier.
pub open spec fn session_url(session: CreateSessionResponseView, base: Seq<char>) -> Seq<char> {
    sessions_url(base, session.app_name, session.user_id) + "/"@ + session.id
}

/// The request that creates a session.
pub open spec fn create_call(base: Seq<char>, who: (Seq<char>, Seq<char>)) -> HttpRequestView {
    HttpRequestView { method: Method::Post, url: sessions_url(base, who.0, who.1), body: None }
}

/// The request that terminates a session, where the session is active.
pub open spec fn terminate_call(session: CreateSessionResponseView, base: Seq<char>) -> Result<
    HttpRequestView,
    ProtocolErrorView,
> {
    if session.active() {
        Ok(HttpRequestView { method: Method::Delete, url: session_url(session, base), body: None })
    } else {
        Err(ProtocolErrorView::InvalidSession)
    }
}

/// What a create call came to, given what parsing made of the body: the
/// transport's failure, the status where it is no success, a malformed
/// response, or the session.
pub open spec fn created(reply: ReplyView, body: Option<JsonView>) -> Result<
    CreateSessionResponseView,
    ProtocolErrorView,
> {
    match reply {
        ReplyView::Failed { message } => Err(ProtocolErrorView::TransportError { message }),
        ReplyView::Answered { status, .. } => if !is_success(status) {
            Err(ProtocolErrorView::SessionCreateError { status })
        } else {
            match body {
                Some(j) => malformed(CreateSessionResponseView::accept(j)),
                None => Err(ProtocolErrorView::MalformedResponse { cause: DecodeError::Syntax }),
            }
        },
    }
}

/// What a terminate call came to: the transport's failure, the status where
/// it is no success, or nothing to report.
pub open spec fn terminated(reply: ReplyView) -> Result<(), ProtocolErrorView> {
    match reply {
        ReplyView::Failed { message } => Err(ProtocolErrorView::TransportError { message }),
        ReplyView::Answered { status, .. } => if is_success(status) {
            Ok(())
        } else {
            Err(ProtocolErrorView::SessionTerminateError { status })
        },
    }
}

/// The session that a manager tracks after a create call: the session that
/// was created, or the one it tracked before where the call failed.
pub open spec fn after_create(
    current: CreateSessionResponseView,
    reply: ReplyView,
    body: Option<JsonView>,
) -> CreateSessionResponseView {
    match created(reply, body) {
        Ok(session) => session,
        Err(_) => current,
    }
}

/// The session that a manager tracks after a terminate call: none, or the
/// one it tracked before where the call failed.
pub open spec fn after_terminate(
    current: CreateSessionResponseView,
    reply: ReplyView,
) -> CreateSessionResponseView {
    match terminated(reply) {
        Ok(_) => CreateSessionResponseView::empty(),
        Err(_) => current,
    }
}

/// The lifecycle of the tracked session. After a create call that succeeded
/// the session is active; after one that failed there is still none. After a
/// terminate call that succeeded there is none; after one that failed the
/// session is the one that was there.
pub proof fn lemma_lifecycle(
    current: CreateSessionResponseView,
    reply: ReplyView,
    body: Option<JsonView>,
)
    ensures
        created(reply, body) is Ok ==> after_create(current, reply, body).active(),
        created(reply, body) is Err && !current.active() ==> !after_create(
            current,
            reply,
            body,
        ).active(),
        terminated(reply) is Ok ==> !after_terminate(current, reply).active(),
        terminated(reply) is Err ==> after_terminate(current, reply) == current,
{
}

/// The body of an answer, as the parser reads it.
pub open spec fn parsed_body(reply: ReplyView) -> Option<JsonView> {
    match reply {
        ReplyView::Answered { body, .. } => parsed(body),
        ReplyView::Failed { .. } => None,
    }
}

/// Whether a status is a success.
pub fn status_is_success(status: u16) -> (r: bool)
    ensures
        r == is_success(status),
{
    200 <= status && status < 300
}

/// The request that creates a session for `who` at the service under
/// `base_url`: a POST without a body.
pub fn create_request(base_url: &str, who: &CreateSession) -> (r: HttpRequest)
    ensures
        r@ == create_call(base_url@, (who.app_name@, who.user_id@)),
{
    let mut url = String::from_str(base_url);
    url.append("/apps/");
    url.append(who.app_name.as_str());
    url.append("/users/");
    url.append(who.user_id.as_str());
    url.append("/sessions");
    HttpRequest { method: Method::Post, url, body: None }
}

/// The request that terminates `session` at the service under `base_url`: a
/// DELETE without a body. A session that is not active gives
/// [`InvalidSession`](ProtocolError::InvalidSession), and nothing is to be
/// sent.
pub fn terminate_request(session: &CreateSessionResponse, base_url: &str) -> (r: Result<
    HttpRequest,
    ProtocolError,
>)
    ensures
        outcome(r) == terminate_call(session@, base_url@),
{
    if !session.is_active() {
        return Err(ProtocolError::InvalidSession);
    }
    let mut url = String::from_str(base_url);
    url.append("/apps/");
    url.append(session.app_name.as_str());
    url.append("/users/");
    url.append(session.user_id.as_str());
    url.append("/sessions");
    url.append("/");
    url.append(session.id.as_str());
    Ok(HttpRequest { method: Method::Delete, url, body: None })
}

/// What a create call came to, the body of the answer already parsed. The
/// body is looked at only where the status is a success.
pub fn session_from_reply(status: u16, body: Result<Json, DecodeError>) -> (r: Result<
    CreateSessionResponse,
    ProtocolError,
>)
    ensures
        outcome(r) == (if !is_success(status) {
            Err(ProtocolErrorView::SessionCreateError { status })
        } else {
            match body {
                Ok(j) => malformed(CreateSessionResponseView::accept(j@)),
                Err(cause) => Err(ProtocolErrorView::MalformedResponse { cause }),
            }
        }),
{
    if !status_is_success(status) {
        return Err(ProtocolError::SessionCreateError { status });
    }
    match body {
        Ok(j) => CreateSessionResponse::accept(&j),
        Err(cause) => Err(ProtocolError::MalformedResponse { cause }),
    }
}

/// The one session that a client tracks.
#[derive(Debug)]
pub struct SessionManager {
    current: CreateSessionResponse,
}

impl View for SessionManager {
    type V = CreateSessionResponseView;

    /// The current session.
    closed spec fn view(&self) -> CreateSessionResponseView {
        self.current@
    }
}

impl SessionManager {
    /// A manager without a session.
    pub fn new() -> (r: SessionManager)
        ensures
            r@ == CreateSessionResponseView::empty(),
    {
        SessionManager { current: CreateSessionResponse::default() }
    }

    /// A manager that tracks `session`, as one does after a page is drawn
    /// again with the session it had.
    pub fn resume(session: CreateSessionResponse) -> (r: SessionManager)
        ensures
            r@ == session@,
    {
        SessionManager { current: session }
    }

    /// The request that creates a session for `who`. To create while a
    /// session is active is the caller's error.
    pub fn create_request(&self, base_url: &str, who: &CreateSession) -> (r: HttpRequest)
        requires
            !self@.active(),
        ensures
            r@ == create_call(base_url@, (who.app_name@, who.user_id@)),
    {
        create_request(base_url, who)
    }

    /// The current session; the empty session where there is none.
    pub fn current(&self) -> (r: &CreateSessionResponse)
        ensures
            r@ == self@,
    {
        &self.current
    }

    /// Whether there is a session.
    pub fn is_active(&self) -> (r: bool)
        ensures
            r == self@.active(),
    {
        self.current.is_active()
    }

    /// Takes what came back from a create call. On success the session is
    /// stored and a copy returned; it is active. On any failure the manager
    /// stays without a session. To create while a session is active is the
    /// caller's error.
    pub fn finish_create(&mut self, reply: Reply) -> (r: Result<
        CreateSessionResponse,
        ProtocolError,
    >)
        requires
            !old(self)@.active(),
        ensures
            outcome(r) == created(reply@, parsed_body(reply@)),
            final(self)@ == after_create(old(self)@, reply@, parsed_body(reply@)),
            r is Ok ==> final(self)@ == r->Ok_0@ && final(self)@.active(),
            r is Err ==> final(self)@ == old(self)@ && !final(self)@.active(),
    {
        match reply {
            Reply::Failed { message } => Err(ProtocolError::TransportError { message }),
            Reply::Answered { status, body } => {
                if !status_is_success(status) {
                    return Err(ProtocolError::SessionCreateError { status });
                }
                let session = session_from_reply(status, Json::parse(body.as_str()))?;
                self.current = session.clone();
                Ok(session)
            },
        }
    }

    /// The request that terminates the current session, or
    /// [`InvalidSession`](ProtocolError::InvalidSession) where there is
    /// none.
    pub fn terminate_request(&self, base_url: &str) -> (r: Result<HttpRequest, ProtocolError>)
        ensures
            outcome(r) == terminate_call(self@, base_url@),
    {
        terminate_request(&self.current, base_url)
    }

    /// Takes what came back from a terminate call. On success the manager is
    /// left without a session; on any failure the session stays as it was,
    /// and the caller may try again.
    pub fn finish_terminate(&mut self, reply: Reply) -> (r: Result<(), ProtocolError>)
        ensures
            outcome(r) == terminated(reply@),
            final(self)@ == after_terminate(old(self)@, reply@),
            r is Ok ==> final(self)@ == CreateSessionResponseView::empty(),
            r is Err ==> final(self)@ == old(self)@,
    {
        match reply {
            Reply::Failed { message } => Err(ProtocolError::TransportError { message }),
            Reply::Answered { status, body } => {
                if status_is_success(status) {
                    self.current = CreateSessionResponse::default();
                    Ok(())
                } else {
                    Err(ProtocolError::SessionTerminateError { status })
                }
            },
        }
    }
}

} // verus!
