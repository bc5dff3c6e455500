//! The client ends of the door wire protocol, as decisions on the daemon's
//! replies: the greeter's conversation (handshake, session list, the PAM
//! dialogue, session start, power actions) and the lock screen's verify-only
//! reauthentication. The socket I/O and framing are the caller's; each function
//! here takes the reply that was read and says what it means at that point of the
//! conversation — a reply that does not belong there is an error that carries it.
use vstd::prelude::*;

verus! {

/// A PAM prompt as the daemon relays it.
#[derive(Debug, Clone, PartialEq, Eq)]
pub enum AuthPrompt {
    /// PAM wants input; mask it if `secret`.
    Question { text: String, secret: bool },
    /// A one-way informational message.
    Info { text: String },
    /// A one-way error message.
    Error { text: String },
}

/// A startable session as the daemon lists it.
#[derive(Debug, Clone, PartialEq, Eq)]
pub struct Session {
    pub id: String,
    pub name: String,
    pub comment: Option<String>,
}

/// A power action the greeter may ask the daemon for.
#[derive(Debug, Clone, Copy, PartialEq, Eq, Structural)]
pub enum PowerAction {
    Suspend,
    Reboot,
    PowerOff,
}

/// A reply on the greeter socket. `Other` stands for any reply this client has no
/// use for, carried as its printed form.
#[derive(Debug, Clone, PartialEq, Eq)]
pub enum Response {
    Welcome { protocol_version: u32 },
    Incompatible { daemon_protocol_version: u32 },
    Sessions(Vec<Session>),
    Auth(AuthPrompt),
    AuthSuccess,
    AuthFailure { reason: String },
    Started,
    Error { message: String },
    Other(String),
}

/// A reply on the reauth socket. `Other` stands for any reply this client has no
/// use for, carried as its printed form.
#[derive(Debug, Clone, PartialEq, Eq)]
pub enum ReauthResponse {
    Welcome { protocol_version: u32 },
    Incompatible { daemon_protocol_version: u32 },
    Prompt(AuthPrompt),
    Allow,
    Deny { reason: String },
    Other(String),
}

/// Why a client operation could not complete.
#[derive(Debug, Clone, PartialEq, Eq)]
pub enum ClientError {
    /// The socket failed (not present, closed, timed out, permission).
    Io(String),
    /// A frame could not be written or parsed.
    Frame(String),
    /// The daemon cannot speak our protocol version; it sent `Incompatible`.
    Incompatible { daemon_version: u32 },
    /// The greeter daemon sent a reply that does not belong at this point.
    Unexpected(Response),
    /// The reauth daemon sent a reply that does not belong at this point.
    UnexpectedReauth(ReauthResponse),
}

/// One step the daemon surfaces during an authentication conversation.
#[derive(Debug, Clone, PartialEq, Eq)]
pub enum AuthStep {
    /// PAM wants input — render `text`; mask it if `secret`.
    Question { text: String, secret: bool },
    /// A one-way informational message to show the user.
    Info(String),
    /// A one-way error message to show the user.
    Error(String),
    /// Authentication succeeded; the chosen session may now be started.
    Success,
    /// Authentication failed (the reason is safe to show); the user may retry.
    Failure(String),
}

/// The outcome of asking the daemon to start a session.
#[derive(Debug, Clone, PartialEq, Eq)]
pub enum StartOutcome {
    /// The session launched; the greeter should step aside.
    Started,
    /// The daemon refused (the message is non-leaky, safe to show).
    Refused(String),
}

/// One step the daemon surfaces during a reauthentication conversation.
#[derive(Debug, Clone, PartialEq, Eq)]
pub enum ReauthStep {
    /// PAM wants input — render `text`; mask it if `secret`.
    Question { text: String, secret: bool },
    /// A one-way informational message to show the user.
    Info(String),
    /// A one-way error message to show the user.
    Error(String),
    /// Reauthentication succeeded: this uid's credentials verified. Unlock.
    Allow,
    /// Reauthentication failed (the reason is deliberately coarse); retry.
    Deny(String),
}

/// A request on the greeter socket.
#[derive(Debug, Clone, PartialEq, Eq)]
pub enum Request {
    /// The first request of every connection: the protocol version spoken.
    Hello { protocol_version: u32 },
    ListSessions,
    BeginAuth { username: String },
    /// The reply to the PAM prompt being answered.
    AuthReply { response: String },
    CancelAuth,
    Start { session_id: String },
    Power(PowerAction),
}

/// A request on the reauth socket. `Begin` carries no identity: the daemon takes
/// the uid from the connection's peer credentials.
#[derive(Debug, Clone, PartialEq, Eq)]
pub enum ReauthRequest {
    /// The first request of every connection: the protocol version spoken.
    Hello { protocol_version: u32 },
    Begin,
    /// The reply to the PAM prompt being answered.
    Reply { response: String },
    Cancel,
}

/// The greeter's opening request on a new connection, for the protocol version it
/// speaks; [`handshake`] reads the daemon's answer to it.
pub fn hello(protocol_version: u32) -> (r: Request)
    ensures
        r == (Request::Hello { protocol_version }),
{
    Request::Hello { protocol_version }
}

/// The lock screen's opening request on a new reauth connection;
/// [`reauth_handshake`] reads the daemon's answer to it.
pub fn reauth_hello(protocol_version: u32) -> (r: ReauthRequest)
    ensures
        r == (ReauthRequest::Hello { protocol_version }),
{
    ReauthRequest::Hello { protocol_version }
}

/// The request that opens a reauthentication attempt: fieldless, so no identity
/// can be named on the wire.
pub fn begin() -> (r: ReauthRequest)
    ensures
        r == ReauthRequest::Begin,
{
    ReauthRequest::Begin
}

/// The handshake's verdict on the daemon's answer to `Hello`.
pub open spec fn handshake_result(r: Response) -> Result<(), ClientError> {
    match r {
        Response::Welcome { .. } => Ok(()),
        Response::Incompatible { daemon_protocol_version } => Err(
            ClientError::Incompatible { daemon_version: daemon_protocol_version },
        ),
        other => Err(ClientError::Unexpected(other)),
    }
}

/// What a reply means while reading the PAM dialogue.
pub open spec fn auth_step_of(r: Response) -> Result<AuthStep, ClientError> {
    match r {
        Response::Auth(AuthPrompt::Question { text, secret }) => Ok(
            AuthStep::Question { text, secret },
        ),
        Response::Auth(AuthPrompt::Info { text }) => Ok(AuthStep::Info(text)),
        Response::Auth(AuthPrompt::Error { text }) => Ok(AuthStep::Error(text)),
        Response::AuthSuccess => Ok(AuthStep::Success),
        Response::AuthFailure { reason } => Ok(AuthStep::Failure(reason)),
        other => Err(ClientError::Unexpected(other)),
    }
}

/// What a reply means after asking to start a session.
pub open spec fn start_outcome_of(r: Response) -> Result<StartOutcome, ClientError> {
    match r {
        Response::Started => Ok(StartOutcome::Started),
        Response::Error { message } => Ok(StartOutcome::Refused(message)),
        other => Err(ClientError::Unexpected(other)),
    }
}

/// The reauth handshake's verdict on the daemon's answer to `Hello`.
pub open spec fn reauth_handshake_result(r: ReauthResponse) -> Result<(), ClientError> {
    match r {
        ReauthResponse::Welcome { .. } => Ok(()),
        ReauthResponse::Incompatible { daemon_protocol_version } => Err(
            ClientError::Incompatible { daemon_version: daemon_protocol_version },
        ),
        other => Err(ClientError::UnexpectedReauth(other)),
    }
}

/// What a reply means while reading the reauthentication dialogue.
pub open spec fn reauth_step_of(r: ReauthResponse) -> Result<ReauthStep, ClientError> {
    match r {
        ReauthResponse::Prompt(AuthPrompt::Question { text, secret }) => Ok(
            ReauthStep::Question { text, secret },
        ),
        ReauthResponse::Prompt(AuthPrompt::Info { text }) => Ok(ReauthStep::Info(text)),
        ReauthResponse::Prompt(AuthPrompt::Error { text }) => Ok(ReauthStep::Error(text)),
        ReauthResponse::Allow => Ok(ReauthStep::Allow),
        ReauthResponse::Deny { reason } => Ok(ReauthStep::Deny(reason)),
        other => Err(ClientError::UnexpectedReauth(other)),
    }
}

/// Require a matching `Welcome` to our `Hello` before anything else.
pub fn handshake(reply: Response) -> (r: Result<(), ClientError>)
    ensures
        r == handshake_result(reply),
{
    match reply {
        Response::Welcome { .. } => Ok(()),
        Response::Incompatible { daemon_protocol_version } => Err(
            ClientError::Incompatible { daemon_version: daemon_protocol_version },
        ),
        other => Err(ClientError::Unexpected(other)),
    }
}

/// The startable sessions, from the answer to `ListSessions`.
pub fn list_sessions(reply: Response) -> (r: Result<Vec<Session>, ClientError>)
    ensures
        r == (match reply {
            Response::Sessions(sessions) => Ok::<Vec<Session>, ClientError>(sessions),
            other => Err(ClientError::Unexpected(other)),
        }),
{
    match reply {
        Response::Sessions(sessions) => Ok(sessions),
        other => Err(ClientError::Unexpected(other)),
    }
}

/// The next conversation step, from a reply read during the PAM dialogue.
pub fn recv_auth(reply: Response) -> (r: Result<AuthStep, ClientError>)
    ensures
        r == auth_step_of(reply),
{
    match reply {
        Response::Auth(AuthPrompt::Question { text, secret }) => Ok(
            AuthStep::Question { text, secret },
        ),
        Response::Auth(AuthPrompt::Info { text }) => Ok(AuthStep::Info(text)),
        Response::Auth(AuthPrompt::Error { text }) => Ok(AuthStep::Error(text)),
        Response::AuthSuccess => Ok(AuthStep::Success),
        Response::AuthFailure { reason } => Ok(AuthStep::Failure(reason)),
        other => Err(ClientError::Unexpected(other)),
    }
}

/// The outcome of a `Start` request, from the daemon's reply.
pub fn start(reply: Response) -> (r: Result<StartOutcome, ClientError>)
    ensures
        r == start_outcome_of(reply),
{
    match reply {
        Response::Started => Ok(StartOutcome::Started),
        Response::Error { message } => Ok(StartOutcome::Refused(message)),
        other => Err(ClientError::Unexpected(other)),
    }
}

/// The outcome of a power request: the daemon's message when it refused. (A
/// poweroff/reboot that went ahead ends the connection rather than replying.)
pub fn power(reply: Response) -> (r: Result<Option<String>, ClientError>)
    ensures
        r == (match reply {
            Response::Error { message } => Ok::<Option<String>, ClientError>(Some(message)),
            other => Err(ClientError::Unexpected(other)),
        }),
{
    match reply {
        Response::Error { message } => Ok(Some(message)),
        other => Err(ClientError::Unexpected(other)),
    }
}

/// Require a matching `Welcome` on the reauth socket before anything else.
pub fn reauth_handshake(reply: ReauthResponse) -> (r: Result<(), ClientError>)
    ensures
        r == reauth_handshake_result(reply),
{
    match reply {
        ReauthResponse::Welcome { .. } => Ok(()),
        ReauthResponse::Incompatible { daemon_protocol_version } => Err(
            ClientError::Incompatible { daemon_version: daemon_protocol_version },
        ),
        other => Err(ClientError::UnexpectedReauth(other)),
    }
}

/// The next reauthentication step, from a reply read during the dialogue.
pub fn recv_step(reply: ReauthResponse) -> (r: Result<ReauthStep, ClientError>)
    ensures
        r == reauth_step_of(reply),
{
    match reply {
        ReauthResponse::Prompt(AuthPrompt::Question { text, secret }) => Ok(
            ReauthStep::Question { text, secret },
        ),
        ReauthResponse::Prompt(AuthPrompt::Info { text }) => Ok(ReauthStep::Info(text)),
        ReauthResponse::Prompt(AuthPrompt::Error { text }) => Ok(ReauthStep::Error(text)),
        ReauthResponse::Allow => Ok(ReauthStep::Allow),
        ReauthResponse::Deny { reason } => Ok(ReauthStep::Deny(reason)),
        other => Err(ClientError::UnexpectedReauth(other)),
    }
}

/// Only an explicit `Welcome` opens a conversation, and only `AuthSuccess` is read
/// as a successful authentication (and only `Allow` as a successful reauthentication).
pub proof fn lemma_success_only_from_success_reply(r: Response, q: ReauthResponse)
    ensures
        handshake_result(r) is Ok <==> r is Welcome,
        auth_step_of(r) == Ok::<AuthStep, ClientError>(AuthStep::Success) <==> r is AuthSuccess,
        start_outcome_of(r) == Ok::<StartOutcome, ClientError>(StartOutcome::Started) <==> r is Started,
        reauth_handshake_result(q) is Ok <==> q is Welcome,
        reauth_step_of(q) == Ok::<ReauthStep, ClientError>(ReauthStep::Allow) <==> q is Allow,
{
}

} // verus!
