//! The greeter's login flow as a state machine. The UI and the daemon worker feed
//! it events; it answers with the next state, at most one command for the worker
//! and what the UI should do (focus the prompt field, or step aside).
//!
//! The typed password stays in the state only until the daemon's password prompt
//! arrives; it then leaves as that prompt's reply and the field is cleared. A verdict
//! clears it too.
use vstd::prelude::*;

use crate::client::{AuthStep, PowerAction, Request, Session, StartOutcome};
use crate::text::{chars_of, push_str, string_of};

verus! {

/// Where the greeter is in the login flow.
#[derive(Debug, Clone, Copy, PartialEq, Eq, Structural)]
pub enum Phase {
    /// Connecting / waiting for the worker and the session list.
    Connecting,
    /// Idle, ready for the user to enter credentials.
    Ready,
    /// Authentication is in flight (waiting on PAM prompts / verdict).
    Authenticating,
    /// The session was started; the greeter is stepping aside.
    Started,
}

/// A startable session, shown by name in the picker.
#[derive(Debug, PartialEq, Eq)]
pub struct SessionChoice {
    pub id: String,
    pub name: String,
}

impl View for SessionChoice {
    type V = (Seq<char>, Seq<char>);

    open spec fn view(&self) -> (Seq<char>, Seq<char>) {
        (self.id@, self.name@)
    }
}

impl SessionChoice {
    /// A copy with the same id and name.
    pub fn duplicate(&self) -> (c: SessionChoice)
        ensures
            c@ == self@,
    {
        SessionChoice { id: self.id.clone(), name: self.name.clone() }
    }
}

/// An interactive PAM prompt whose reply must be typed: a second factor the
/// pre-typed password cannot answer (a FIDO2 PIN), or the first prompt of a
/// passwordless stack. `value` is the reply being typed.
#[derive(Debug, PartialEq, Eq)]
pub struct PromptField {
    pub text: String,
    pub secret: bool,
    pub value: String,
}

/// A prompt field as plain values.
pub struct PromptView {
    pub text: Seq<char>,
    pub secret: bool,
    pub value: Seq<char>,
}

impl View for PromptField {
    type V = PromptView;

    open spec fn view(&self) -> PromptView {
        PromptView { text: self.text@, secret: self.secret, value: self.value@ }
    }
}

/// What the UI asks the worker to do.
#[derive(Debug, PartialEq, Eq)]
pub enum Command {
    Authenticate { username: String },
    /// The reply to the PAM prompt being answered.
    Reply(String),
    Start { session_id: String },
    Power(PowerAction),
}

/// A command as plain values.
pub enum CommandView {
    Authenticate(Seq<char>),
    Reply(Seq<char>),
    Start(Seq<char>),
    Power(PowerAction),
}

impl View for Command {
    type V = CommandView;

    open spec fn view(&self) -> CommandView {
        match self {
            Command::Authenticate { username } => CommandView::Authenticate(username@),
            Command::Reply(secret) => CommandView::Reply(secret@),
            Command::Start { session_id } => CommandView::Start(session_id@),
            Command::Power(action) => CommandView::Power(*action),
        }
    }
}

/// A command handed to the worker. If the worker turns out to be gone, the caller
/// reports it with [`Greeter::command_lost`], passing `keep_status_if_lost`.
pub struct Outbox {
    pub command: Command,
    pub keep_status_if_lost: bool,
}

/// What the UI does besides rendering the new state.
#[derive(Debug, Clone, Copy, PartialEq, Eq, Structural)]
pub enum Effect {
    Nothing,
    /// Move keyboard focus to the prompt field.
    FocusPrompt,
    /// The greeter's job is done: exit so the session can take the VT.
    Exit,
}

/// The answer to one event.
pub struct Reaction {
    pub outbox: Option<Outbox>,
    pub effect: Effect,
}

/// An event from the worker or the user. `WorkerReady` means the worker's command
/// channel is now held by the caller.
pub enum Message {
    WorkerReady,
    Sessions(Vec<Session>),
    /// PAM wants input; `secret` ⇒ it is the password (auto-answered if typed).
    Prompt { text: String, secret: bool },
    Notice(String),
    PromptChanged(String),
    PromptSubmitted,
    AuthSucceeded,
    AuthFailed(String),
    SessionStarted,
    DaemonError(String),
    Fatal(String),
    UsernameChanged(String),
    PasswordChanged(String),
    SessionPicked(SessionChoice),
    LoginPressed,
    PowerPressed(PowerAction),
}

/// The greeter's state.
pub struct Greeter {
    pub phase: Phase,
    pub sessions: Vec<SessionChoice>,
    pub selected: Option<SessionChoice>,
    pub username: String,
    pub password: String,
    pub status: String,
    /// Whether `status` is an error (shown in the error color).
    pub status_error: bool,
    /// Whether the worker's command channel has been handed over.
    pub connected: bool,
    pub prompt: Option<PromptField>,
    /// A one-way PAM cue shown mid-authentication ("Please touch the device").
    pub cue: Option<String>,
}

/// The greeter's state as plain values.
pub struct GreeterView {
    pub phase: Phase,
    pub sessions: Seq<(Seq<char>, Seq<char>)>,
    pub selected: Option<(Seq<char>, Seq<char>)>,
    pub username: Seq<char>,
    pub password: Seq<char>,
    pub status: Seq<char>,
    pub status_error: bool,
    pub connected: bool,
    pub prompt: Option<PromptView>,
    pub cue: Option<Seq<char>>,
}

pub open spec fn choice_view(c: Option<SessionChoice>) -> Option<(Seq<char>, Seq<char>)> {
    match c {
        Some(c) => Some(c@),
        None => None,
    }
}

pub open spec fn prompt_view(p: Option<PromptField>) -> Option<PromptView> {
    match p {
        Some(p) => Some(p@),
        None => None,
    }
}

pub open spec fn text_view(t: Option<String>) -> Option<Seq<char>> {
    match t {
        Some(t) => Some(t@),
        None => None,
    }
}

impl View for Greeter {
    type V = GreeterView;

    open spec fn view(&self) -> GreeterView {
        GreeterView {
            phase: self.phase,
            sessions: self.sessions@.map_values(|c: SessionChoice| c@),
            selected: choice_view(self.selected),
            username: self.username@,
            password: self.password@,
            status: self.status@,
            status_error: self.status_error,
            connected: self.connected,
            prompt: prompt_view(self.prompt),
            cue: text_view(self.cue),
        }
    }
}

/// The session list as choices: each session's id and name.
pub open spec fn choices_of(sessions: Seq<Session>) -> Seq<(Seq<char>, Seq<char>)> {
    sessions.map_values(|s: Session| (s.id@, s.name@))
}

/// "Starting <name>…"
pub open spec fn starting_text(name: Seq<char>) -> Seq<char> {
    "Starting "@ + name + "…"@
}

/// "Cannot reach doord: <message>"
pub open spec fn unreachable_text(message: Seq<char>) -> Seq<char> {
    "Cannot reach doord: "@ + message
}

/// Handing `c` to the worker: it goes out when the worker is connected; otherwise
/// nothing goes out and the status says so.
pub open spec fn sent(v: GreeterView, c: CommandView, keep: bool) -> (
    GreeterView,
    Option<(CommandView, bool)>,
) {
    if v.connected {
        (v, Some((c, keep)))
    } else {
        (GreeterView { status: "Not connected to doord yet."@, ..v }, None)
    }
}

/// The state after a verdict that sends the user back to the form.
pub open spec fn rejected(v: GreeterView, status: Seq<char>, phase: Phase) -> GreeterView {
    GreeterView {
        password: Seq::empty(),
        prompt: None,
        cue: None,
        status,
        status_error: true,
        phase,
        ..v
    }
}

/// The greeter's answer to one event: the next state, the command handed to the
/// worker (with whether a lost worker keeps the status line), and the UI effect.
pub open spec fn greeter_next(v: GreeterView, e: Message) -> (
    GreeterView,
    Option<(CommandView, bool)>,
    Effect,
) {
    match e {
        Message::WorkerReady => (
            GreeterView {
                connected: true,
                status: "Select a session and sign in."@,
                phase: if v.phase == Phase::Connecting {
                    Phase::Ready
                } else {
                    v.phase
                },
                ..v
            },
            None,
            Effect::Nothing,
        ),
        Message::Sessions(list) => {
            let sessions = choices_of(list@);
            let selected = if v.selected is Some {
                v.selected
            } else if sessions.len() > 0 {
                Some(sessions[0])
            } else {
                None
            };
            (GreeterView { sessions, selected, ..v }, None, Effect::Nothing)
        },
        Message::Prompt { text, secret } => {
            let w = GreeterView { cue: None, ..v };
            if secret && v.password.len() > 0 {
                let (s, out) = sent(
                    GreeterView { status: text@, password: Seq::empty(), ..w },
                    CommandView::Reply(v.password),
                    false,
                );
                (s, out, Effect::Nothing)
            } else {
                (
                    GreeterView {
                        status: Seq::empty(),
                        status_error: false,
                        prompt: Some(PromptView { text: text@, secret, value: Seq::empty() }),
                        ..w
                    },
                    None,
                    Effect::FocusPrompt,
                )
            }
        },
        Message::Notice(text) => {
            if v.phase == Phase::Authenticating && v.prompt is None {
                (GreeterView { cue: Some(text@), status: Seq::empty(), ..v }, None, Effect::Nothing)
            } else {
                (GreeterView { status: text@, ..v }, None, Effect::Nothing)
            }
        },
        Message::PromptChanged(value) => match v.prompt {
            Some(p) => (
                GreeterView { prompt: Some(PromptView { value: value@, ..p }), ..v },
                None,
                Effect::Nothing,
            ),
            None => (v, None, Effect::Nothing),
        },
        Message::PromptSubmitted => match v.prompt {
            Some(p) => {
                let (s, out) = sent(
                    GreeterView { prompt: None, ..v },
                    CommandView::Reply(p.value),
                    true,
                );
                (GreeterView { status: "Authenticating…"@, ..s }, out, Effect::Nothing)
            },
            None => (v, None, Effect::Nothing),
        },
        Message::AuthSucceeded => {
            let w = GreeterView { password: Seq::empty(), prompt: None, cue: None, ..v };
            match v.selected {
                Some(choice) => {
                    let (s, out) = sent(
                        GreeterView { status: starting_text(choice.1), ..w },
                        CommandView::Start(choice.0),
                        false,
                    );
                    (s, out, Effect::Nothing)
                },
                None => (
                    GreeterView {
                        status: "Authenticated, but no session selected."@,
                        phase: Phase::Ready,
                        ..w
                    },
                    None,
                    Effect::Nothing,
                ),
            }
        },
        Message::AuthFailed(reason) => (rejected(v, reason@, Phase::Ready), None, Effect::Nothing),
        Message::SessionStarted => (
            GreeterView { phase: Phase::Started, status: "Session started."@, ..v },
            None,
            Effect::Exit,
        ),
        Message::DaemonError(message) => (
            rejected(v, message@, Phase::Ready),
            None,
            Effect::Nothing,
        ),
        Message::Fatal(message) => (
            GreeterView {
                prompt: None,
                cue: None,
                status: unreachable_text(message@),
                status_error: true,
                phase: Phase::Connecting,
                ..v
            },
            None,
            Effect::Nothing,
        ),
        Message::UsernameChanged(value) => (
            GreeterView { username: value@, ..v },
            None,
            Effect::Nothing,
        ),
        Message::PasswordChanged(value) => (
            GreeterView { password: value@, ..v },
            None,
            Effect::Nothing,
        ),
        Message::SessionPicked(choice) => (
            GreeterView { selected: Some(choice@), ..v },
            None,
            Effect::Nothing,
        ),
        Message::LoginPressed => {
            let w = GreeterView { status_error: false, ..v };
            if v.username.len() == 0 {
                (GreeterView { status: "Enter a username."@, ..w }, None, Effect::Nothing)
            } else if v.selected is None {
                (GreeterView { status: "Select a session."@, ..w }, None, Effect::Nothing)
            } else {
                let (s, out) = sent(
                    GreeterView {
                        phase: Phase::Authenticating,
                        status: "Authenticating…"@,
                        prompt: None,
                        cue: None,
                        ..w
                    },
                    CommandView::Authenticate(v.username),
                    false,
                );
                (s, out, Effect::Nothing)
            }
        },
        Message::PowerPressed(action) => {
            let (s, out) = sent(v, CommandView::Power(action), false);
            (s, out, Effect::Nothing)
        },
    }
}

/// The state after the worker was found gone while handing it a command.
pub open spec fn greeter_lost(v: GreeterView, keep_status: bool) -> GreeterView {
    GreeterView {
        phase: Phase::Connecting,
        status: if keep_status {
            v.status
        } else {
            "Lost the connection to doord."@
        },
        ..v
    }
}

pub open spec fn outbox_view(o: Option<Outbox>) -> Option<(CommandView, bool)> {
    match o {
        Some(o) => Some((o.command@, o.keep_status_if_lost)),
        None => None,
    }
}

/// A `String` holding the characters of a literal.
pub(crate) fn owned(s: &str) -> (r: String)
    ensures
        r@ == s@,
{
    s.to_owned()
}

impl Greeter {
    /// The state on launch: connecting, nothing typed, no session list yet.
    pub fn new() -> (g: Greeter)
        ensures
            g@.phase == Phase::Connecting,
            g@.sessions.len() == 0,
            g@.selected is None,
            g@.username.len() == 0,
            g@.password.len() == 0,
            g@.status == "Connecting to doord…"@,
            !g@.status_error,
            !g@.connected,
            g@.prompt is None,
            g@.cue is None,
    {
        Greeter {
            phase: Phase::Connecting,
            sessions: Vec::new(),
            selected: None,
            username: String::new(),
            password: String::new(),
            status: owned("Connecting to doord…"),
            status_error: false,
            connected: false,
            prompt: None,
            cue: None,
        }
    }

    /// Hand `command` to the worker when it is connected; otherwise say so.
    fn send(&mut self, command: Command, keep: bool) -> (o: Option<Outbox>)
        ensures
            (final(self)@, outbox_view(o)) == sent(old(self)@, command@, keep),
    {
        if self.connected {
            Some(Outbox { command, keep_status_if_lost: keep })
        } else {
            self.status = owned("Not connected to doord yet.");
            None
        }
    }

    /// The worker was gone when `Outbox::command` was handed to it: back to
    /// connecting, with the status saying so unless the outbox kept it.
    pub fn command_lost(&mut self, keep_status: bool)
        ensures
            final(self)@ == greeter_lost(old(self)@, keep_status),
    {
        if !keep_status {
            self.status = owned("Lost the connection to doord.");
        }
        self.phase = Phase::Connecting;
    }

    /// Replace the session list; select its first entry when nothing is selected.
    fn take_sessions(&mut self, list: Vec<Session>)
        ensures
            final(self)@ == (GreeterView {
                sessions: choices_of(list@),
                selected: if old(self)@.selected is Some {
                    old(self)@.selected
                } else if list@.len() > 0 {
                    Some(choices_of(list@)[0])
                } else {
                    None
                },
                ..old(self)@
            }),
    {
        let mut choices: Vec<SessionChoice> = Vec::new();
        let mut i: usize = 0;
        while i < list.len()
            invariant
                i <= list.len(),
                choices.len() == i,
                choices@.map_values(|c: SessionChoice| c@) == choices_of(list@).take(i as int),
            decreases list.len() - i,
        {
            let s = &list[i];
            let ghost before = choices@;
            choices.push(SessionChoice { id: s.id.clone(), name: s.name.clone() });
            proof {
                let a = choices@.map_values(|c: SessionChoice| c@);
                let b = choices_of(list@).take(i + 1);
                assert forall|j: int| 0 <= j < a.len() implies a[j] == b[j] by {
                    if j < i {
                        assert(choices@[j] == before[j]);
                        assert(before.map_values(|c: SessionChoice| c@)[j] == b[j]);
                    } else {
                        assert(choices@[j]@ == (list@[j].id@, list@[j].name@));
                    }
                }
                assert(a =~= b);
            }
            i += 1;
        }
        proof {
            assert(choices_of(list@).take(list@.len() as int) =~= choices_of(list@));
        }
        if self.selected.is_none() && choices.len() > 0 {
            self.selected = Some(choices[0].duplicate());
        }
        self.sessions = choices;
    }

    /// Answer one event: update the state, and say what goes to the worker and
    /// what the UI does.
    pub fn update(&mut self, event: Message) -> (r: Reaction)
        ensures
            (final(self)@, outbox_view(r.outbox), r.effect) == greeter_next(old(self)@, event),
    {
        match event {
            Message::WorkerReady => {
                self.connected = true;
                self.status = owned("Select a session and sign in.");
                if self.phase == Phase::Connecting {
                    self.phase = Phase::Ready;
                }
                Reaction { outbox: None, effect: Effect::Nothing }
            },
            Message::Sessions(list) => {
                self.take_sessions(list);
                Reaction { outbox: None, effect: Effect::Nothing }
            },
            Message::Prompt { text, secret } => {
                self.cue = None;
                if secret && !self.password.as_str().is_empty() {
                    self.status = text;
                    let mut reply = String::new();
                    std::mem::swap(&mut reply, &mut self.password);
                    let outbox = self.send(Command::Reply(reply), false);
                    Reaction { outbox, effect: Effect::Nothing }
                } else {
                    self.status = String::new();
                    self.status_error = false;
                    self.prompt = Some(PromptField { text, secret, value: String::new() });
                    Reaction { outbox: None, effect: Effect::FocusPrompt }
                }
            },
            Message::Notice(text) => {
                if self.phase == Phase::Authenticating && self.prompt.is_none() {
                    self.cue = Some(text);
                    self.status = String::new();
                } else {
                    self.status = text;
                }
                Reaction { outbox: None, effect: Effect::Nothing }
            },
            Message::PromptChanged(value) => {
                match self.prompt.take() {
                    Some(p) => {
                        self.prompt = Some(PromptField { text: p.text, secret: p.secret, value });
                    },
                    None => {},
                }
                Reaction { outbox: None, effect: Effect::Nothing }
            },
            Message::PromptSubmitted => {
                match self.prompt.take() {
                    Some(p) => {
                        let outbox = self.send(Command::Reply(p.value), true);
                        self.status = owned("Authenticating…");
                        Reaction { outbox, effect: Effect::Nothing }
                    },
                    None => Reaction { outbox: None, effect: Effect::Nothing },
                }
            },
            Message::AuthSucceeded => {
                self.password = String::new();
                self.prompt = None;
                self.cue = None;
                match &self.selected {
                    Some(choice) => {
                        let mut v: Vec<char> = Vec::new();
                        push_str(&mut v, "Starting ");
                        let name = chars_of(choice.name.as_str());
                        let mut i: usize = 0;
                        let ghost start = v@;
                        while i < name.len()
                            invariant
                                i <= name.len(),
                                v@ == start + name@.take(i as int),
                            decreases name.len() - i,
                        {
                            v.push(name[i]);
                            proof {
                                assert(name@.take(i + 1) =~= name@.take(i as int).push(
                                    name@[i as int],
                                ));
                            }
                            i += 1;
                        }
                        push_str(&mut v, "…");
                        proof {
                            assert(name@.take(name@.len() as int) =~= name@);
                        }
                        let id = choice.id.clone();
                        self.status = string_of(&v);
                        let outbox = self.send(Command::Start { session_id: id }, false);
                        Reaction { outbox, effect: Effect::Nothing }
                    },
                    None => {
                        self.status = owned("Authenticated, but no session selected.");
                        self.phase = Phase::Ready;
                        Reaction { outbox: None, effect: Effect::Nothing }
                    },
                }
            },
            Message::AuthFailed(reason) => {
                self.reject(reason, Phase::Ready);
                Reaction { outbox: None, effect: Effect::Nothing }
            },
            Message::SessionStarted => {
                self.phase = Phase::Started;
                self.status = owned("Session started.");
                Reaction { outbox: None, effect: Effect::Exit }
            },
            Message::DaemonError(message) => {
                self.reject(message, Phase::Ready);
                Reaction { outbox: None, effect: Effect::Nothing }
            },
            Message::Fatal(message) => {
                let mut v: Vec<char> = Vec::new();
                push_str(&mut v, "Cannot reach doord: ");
                push_str(&mut v, message.as_str());
                self.prompt = None;
                self.cue = None;
                self.status = string_of(&v);
                self.status_error = true;
                self.phase = Phase::Connecting;
                Reaction { outbox: None, effect: Effect::Nothing }
            },
            Message::UsernameChanged(value) => {
                self.username = value;
                Reaction { outbox: None, effect: Effect::Nothing }
            },
            Message::PasswordChanged(value) => {
                self.password = value;
                Reaction { outbox: None, effect: Effect::Nothing }
            },
            Message::SessionPicked(choice) => {
                self.selected = Some(choice);
                Reaction { outbox: None, effect: Effect::Nothing }
            },
            Message::LoginPressed => {
                self.status_error = false;
                if self.username.as_str().is_empty() {
                    self.status = owned("Enter a username.");
                    Reaction { outbox: None, effect: Effect::Nothing }
                } else if self.selected.is_none() {
                    self.status = owned("Select a session.");
                    Reaction { outbox: None, effect: Effect::Nothing }
                } else {
                    self.phase = Phase::Authenticating;
                    self.status = owned("Authenticating…");
                    self.prompt = None;
                    self.cue = None;
                    let username = self.username.clone();
                    let outbox = self.send(Command::Authenticate { username }, false);
                    Reaction { outbox, effect: Effect::Nothing }
                }
            },
            Message::PowerPressed(action) => {
                let outbox = self.send(Command::Power(action), false);
                Reaction { outbox, effect: Effect::Nothing }
            },
        }
    }

    /// Return to the login form after a rejection: clear the password, the prompt
    /// and the cue, and show `status` as an error.
    fn reject(&mut self, status: String, phase: Phase)
        ensures
            final(self)@ == rejected(old(self)@, status@, phase),
    {
        self.password = String::new();
        self.prompt = None;
        self.cue = None;
        self.status = status;
        self.status_error = true;
        self.phase = phase;
    }
}

/// What the worker does after reporting one step of the PAM dialogue.
#[derive(Debug, Clone, Copy, PartialEq, Eq, Structural)]
pub enum WorkerNext {
    /// Wait for the UI's reply to the prompt, then read on.
    AwaitReply,
    /// Read the next step.
    ReadNext,
    /// The conversation is over.
    Finished,
}

/// What the worker reports for one step read during the PAM dialogue (`Err`
/// carries the printed client error), and what it does next.
pub open spec fn conversation_turn_of(step: Result<AuthStep, String>) -> (Message, WorkerNext) {
    match step {
        Ok(AuthStep::Question { text, secret }) => (
            Message::Prompt { text, secret },
            WorkerNext::AwaitReply,
        ),
        Ok(AuthStep::Info(text)) => (Message::Notice(text), WorkerNext::ReadNext),
        Ok(AuthStep::Error(text)) => (Message::Notice(text), WorkerNext::ReadNext),
        Ok(AuthStep::Success) => (Message::AuthSucceeded, WorkerNext::Finished),
        Ok(AuthStep::Failure(reason)) => (Message::AuthFailed(reason), WorkerNext::Finished),
        Err(e) => (Message::Fatal(e), WorkerNext::Finished),
    }
}

/// The worker's report on one step of the PAM dialogue and what it does next.
pub fn conversation_turn(step: Result<AuthStep, String>) -> (r: (Message, WorkerNext))
    ensures
        r == conversation_turn_of(step),
{
    match step {
        Ok(AuthStep::Question { text, secret }) => (
            Message::Prompt { text, secret },
            WorkerNext::AwaitReply,
        ),
        Ok(AuthStep::Info(text)) => (Message::Notice(text), WorkerNext::ReadNext),
        Ok(AuthStep::Error(text)) => (Message::Notice(text), WorkerNext::ReadNext),
        Ok(AuthStep::Success) => (Message::AuthSucceeded, WorkerNext::Finished),
        Ok(AuthStep::Failure(reason)) => (Message::AuthFailed(reason), WorkerNext::Finished),
        Err(e) => (Message::Fatal(e), WorkerNext::Finished),
    }
}

/// The worker's report on the session list it asked for on connecting (`Err`
/// carries the printed client error).
pub fn sessions_message(listed: Result<Vec<Session>, String>) -> (r: Message)
    ensures
        match listed {
            Ok(list) => r == Message::Sessions(list),
            Err(e) => r matches Message::DaemonError(m) && m@ == "Could not list sessions: "@
                + e@,
        },
{
    match listed {
        Ok(list) => Message::Sessions(list),
        Err(e) => {
            let mut v: Vec<char> = Vec::new();
            push_str(&mut v, "Could not list sessions: ");
            push_str(&mut v, e.as_str());
            Message::DaemonError(string_of(&v))
        },
    }
}

/// The worker's report on a session start (`Err` carries the printed client error).
pub fn start_message(outcome: Result<StartOutcome, String>) -> (r: Message)
    ensures
        r == (match outcome {
            Ok(StartOutcome::Started) => Message::SessionStarted,
            Ok(StartOutcome::Refused(message)) => Message::DaemonError(message),
            Err(e) => Message::Fatal(e),
        }),
{
    match outcome {
        Ok(StartOutcome::Started) => Message::SessionStarted,
        Ok(StartOutcome::Refused(message)) => Message::DaemonError(message),
        Err(e) => Message::Fatal(e),
    }
}

/// The worker's report on a power request, if any: a refusal or a failure is shown;
/// a request that went ahead is not (`Err` carries the printed client error).
pub fn power_message(outcome: Result<Option<String>, String>) -> (r: Option<Message>)
    ensures
        r == (match outcome {
            Ok(Some(message)) => Some(Message::DaemonError(message)),
            Ok(None) => None,
            Err(e) => Some(Message::DaemonError(e)),
        }),
{
    match outcome {
        Ok(Some(message)) => Some(Message::DaemonError(message)),
        Ok(None) => None,
        Err(e) => Some(Message::DaemonError(e)),
    }
}

/// The request the worker sends the daemon for a command from the UI.
pub fn request_for(command: Command) -> (r: Request)
    ensures
        r == (match command {
            Command::Authenticate { username } => Request::BeginAuth { username },
            Command::Reply(response) => Request::AuthReply { response },
            Command::Start { session_id } => Request::Start { session_id },
            Command::Power(action) => Request::Power(action),
        }),
{
    match command {
        Command::Authenticate { username } => Request::BeginAuth { username },
        Command::Reply(response) => Request::AuthReply { response },
        Command::Start { session_id } => Request::Start { session_id },
        Command::Power(action) => Request::Power(action),
    }
}

/// What leaves the greeter for the worker, for every state and event:
/// - nothing leaves while the worker is not connected;
/// - the typed password leaves only as the reply to a secret prompt, and the field
///   is then empty; any other reply is the typed prompt field's value;
/// - `Authenticate` carries the typed, non-empty username, only from the login
///   button with a session selected, and the flow is then authenticating;
/// - `Start` carries the selected session's id, only after a successful
///   authentication, with the password gone.
pub proof fn lemma_what_leaves_the_greeter(v: GreeterView, e: Message)
    ensures
        ({
            let (w, out, _) = greeter_next(v, e);
            &&& !v.connected ==> out is None
            &&& out matches Some((CommandView::Reply(x), _)) ==> {
                ||| (e matches Message::Prompt { secret, .. } && secret && x == v.password
                    && x.len() > 0 && w.password.len() == 0)
                ||| (e is PromptSubmitted && (v.prompt matches Some(p) && x == p.value)
                    && w.prompt is None)
            }
            &&& out matches Some((CommandView::Authenticate(u), _)) ==> {
                &&& e is LoginPressed
                &&& u == v.username
                &&& u.len() > 0
                &&& v.selected is Some
                &&& w.phase == Phase::Authenticating
            }
            &&& out matches Some((CommandView::Start(id), _)) ==> {
                &&& e is AuthSucceeded
                &&& (v.selected matches Some(c) && id == c.0)
                &&& w.password.len() == 0
            }
            &&& out matches Some((CommandView::Power(_), _)) ==> e is PowerPressed
        }),
{
}

/// A verdict drops every secret: after a successful or failed authentication, or a
/// daemon error, the password is empty and no prompt or cue is left.
pub proof fn lemma_verdict_clears_secrets(v: GreeterView, e: Message)
    requires
        e is AuthSucceeded || e is AuthFailed || e is DaemonError,
    ensures
        ({
            let w = greeter_next(v, e).0;
            w.password.len() == 0 && w.prompt is None && w.cue is None
        }),
{
}

/// The greeter exits only once the session has started, and then says so.
pub proof fn lemma_exit_only_when_started(v: GreeterView, e: Message)
    ensures
        ({
            let (w, _, effect) = greeter_next(v, e);
            &&& (effect == Effect::Exit <==> e is SessionStarted)
            &&& effect == Effect::Exit ==> w.phase == Phase::Started
        }),
{
}

/// A refused attempt hands the form back: after an authentication failure or a
/// daemon error (such as a session the daemon will not start), from any state,
/// the greeter is ready for another try and shows the message as an error; the
/// password, prompt and cue are gone, nothing is sent, and the username, the
/// sessions, the choice and the connection stay.
pub proof fn lemma_refusal_returns_to_the_form(v: GreeterView, e: Message)
    requires
        e is AuthFailed || e is DaemonError,
    ensures
        ({
            let (w, out, effect) = greeter_next(v, e);
            let message = match e {
                Message::AuthFailed(m) => m@,
                Message::DaemonError(m) => m@,
                _ => Seq::empty(),
            };
            &&& w.phase == Phase::Ready
            &&& w.status == message
            &&& w.status_error
            &&& w.password.len() == 0 && w.prompt is None && w.cue is None
            &&& w.username == v.username && w.sessions == v.sessions
            &&& w.selected == v.selected && w.connected == v.connected
            &&& out is None && effect == Effect::Nothing
        }),
{
}

/// After a refusal the user can sign in again: with the worker connected, a
/// username typed and a session chosen, pressing the login button sends a fresh
/// `Authenticate` for that username and the greeter is authenticating again.
pub proof fn lemma_refused_login_can_be_retried(v: GreeterView, e: Message)
    requires
        e is AuthFailed || e is DaemonError,
        v.connected,
        v.username.len() > 0,
        v.selected is Some,
    ensures
        ({
            let (w, out, _) = greeter_next(greeter_next(v, e).0, Message::LoginPressed);
            &&& w.phase == Phase::Authenticating
            &&& out == Some((CommandView::Authenticate(v.username), false))
            &&& w.status == "Authenticating…"@
            &&& !w.status_error
        }),
{
}

/// An unreachable daemon sends the greeter back to connecting: the status reads
/// "Cannot reach doord: " and the message, as an error; the prompt and cue are
/// gone, nothing is sent, and the typed username and password stay.
pub proof fn lemma_unreachable_daemon_reconnects(v: GreeterView, message: String)
    ensures
        ({
            let (w, out, effect) = greeter_next(v, Message::Fatal(message));
            &&& w.phase == Phase::Connecting
            &&& w.status == "Cannot reach doord: "@ + message@
            &&& w.status_error
            &&& w.prompt is None && w.cue is None
            &&& w.username == v.username && w.password == v.password
            &&& out is None && effect == Effect::Nothing
        }),
{
}

/// The worker coming up connects the greeter and invites a sign-in; a greeter
/// that was connecting becomes ready, any other phase is kept.
pub proof fn lemma_worker_ready_connects(v: GreeterView)
    ensures
        ({
            let (w, out, _) = greeter_next(v, Message::WorkerReady);
            &&& w.connected
            &&& w.status == "Select a session and sign in."@
            &&& w.phase == (if v.phase == Phase::Connecting { Phase::Ready } else { v.phase })
            &&& w.username == v.username && w.password == v.password
            &&& out is None
        }),
{
}

/// The login button checks the form before anything leaves: with no username it
/// asks for one, with no session chosen it asks for one, and otherwise it starts
/// authenticating that username with a fresh conversation (no prompt, no cue) and
/// sends `Authenticate` when the worker is connected.
pub proof fn lemma_login_press(v: GreeterView)
    ensures
        ({
            let (w, out, _) = greeter_next(v, Message::LoginPressed);
            &&& !w.status_error
            &&& v.username.len() == 0 ==> (w.status == "Enter a username."@ && out is None
                && w.phase == v.phase)
            &&& (v.username.len() > 0 && v.selected is None) ==> (w.status == "Select a session."@
                && out is None && w.phase == v.phase)
            &&& (v.username.len() > 0 && v.selected is Some) ==> {
                &&& w.phase == Phase::Authenticating
                &&& w.prompt is None && w.cue is None
                &&& v.connected ==> (out == Some((CommandView::Authenticate(v.username), false))
                    && w.status == "Authenticating…"@)
                &&& !v.connected ==> out is None
            }
        }),
{
}

/// A successful authentication drops the password and starts the chosen session:
/// `Start` carries its id and the status names it; with no session chosen the
/// greeter is ready again and says so.
pub proof fn lemma_success_starts_the_session(v: GreeterView)
    ensures
        ({
            let (w, out, effect) = greeter_next(v, Message::AuthSucceeded);
            &&& w.password.len() == 0 && w.prompt is None && w.cue is None
            &&& effect == Effect::Nothing
            &&& v.selected is Some ==> w.phase == v.phase
            &&& v.selected matches Some(c) ==> (v.connected ==> (out == Some(
                (CommandView::Start(c.0), false),
            ) && w.status == "Starting "@ + c.1 + "…"@))
            &&& v.selected is None ==> (out is None && w.phase == Phase::Ready
                && w.status == "Authenticated, but no session selected."@)
        }),
{
}

/// A started session ends the greeter: the phase is `Started`, the status says so
/// and the greeter exits.
pub proof fn lemma_started_session_exits(v: GreeterView)
    ensures
        ({
            let (w, out, effect) = greeter_next(v, Message::SessionStarted);
            &&& w.phase == Phase::Started
            &&& w.status == "Session started."@
            &&& out is None && effect == Effect::Exit
        }),
{
}

/// A PAM prompt is answered from the form when it can be: a password prompt with a
/// password typed sends that password (when connected) and empties the field,
/// showing the prompt's text; any other prompt opens an empty input field labelled
/// with its text, clears the status line and moves the focus there.
pub proof fn lemma_prompt_handling(v: GreeterView, text: String, secret: bool)
    ensures
        ({
            let (w, out, effect) = greeter_next(v, Message::Prompt { text, secret });
            &&& w.cue is None
            &&& (secret && v.password.len() > 0) ==> {
                &&& w.password.len() == 0
                &&& v.connected ==> (out == Some((CommandView::Reply(v.password), false))
                    && w.status == text@)
                &&& effect == Effect::Nothing
            }
            &&& !(secret && v.password.len() > 0) ==> {
                &&& w.prompt == Some(PromptView { text: text@, secret, value: Seq::empty() })
                &&& w.status.len() == 0 && !w.status_error
                &&& out is None && effect == Effect::FocusPrompt
            }
        }),
{
}

/// The session list replaces the choices in order, each as its id and name; a
/// choice already made is kept, and otherwise the first session is chosen.
pub proof fn lemma_sessions_listed(v: GreeterView, list: Vec<Session>)
    ensures
        ({
            let w = greeter_next(v, Message::Sessions(list)).0;
            &&& w.sessions.len() == list@.len()
            &&& forall|i: int|
                0 <= i < list@.len() ==> #[trigger] w.sessions[i] == (list@[i].id@, list@[i].name@)
            &&& v.selected is Some ==> w.selected == v.selected
            &&& (v.selected is None && list@.len() > 0) ==> w.selected == Some(
                (list@[0].id@, list@[0].name@),
            )
            &&& (v.selected is None && list@.len() == 0) ==> w.selected is None
        }),
{
}

/// The worker's dialogue ends exactly on a verdict and the greeter follows it: a
/// question waits for the reply, a message reads on; success drops the password,
/// a failure hands the form back with the reason as an error, and a broken
/// dialogue sends the greeter back to connecting.
pub proof fn lemma_dialogue_verdicts(v: GreeterView, step: Result<AuthStep, String>)
    ensures
        ({
            let (m, next) = conversation_turn_of(step);
            let w = greeter_next(v, m).0;
            &&& (next == WorkerNext::Finished) <==> (step is Err
                || (step matches Ok(AuthStep::Success))
                || (step matches Ok(AuthStep::Failure(_))))
            &&& (next == WorkerNext::AwaitReply) <==> (step matches Ok(AuthStep::Question { .. }))
            &&& step matches Ok(AuthStep::Success) ==> w.password.len() == 0
            &&& step matches Ok(AuthStep::Failure(r)) ==> (w.phase == Phase::Ready && w.status
                == r@ && w.status_error)
            &&& step is Err ==> (w.phase == Phase::Connecting && w.status_error)
        }),
{
}

/// A worker found gone while handing it a command sends the greeter back to
/// connecting; the status then says the connection was lost, unless the command
/// kept its own status line, and nothing else changes.
pub proof fn lemma_lost_worker_reconnects(v: GreeterView, keep_status: bool)
    ensures
        greeter_lost(v, keep_status).phase == Phase::Connecting,
        !keep_status ==> greeter_lost(v, keep_status).status == "Lost the connection to doord."@,
        keep_status ==> greeter_lost(v, keep_status).status == v.status,
        greeter_lost(v, keep_status) == (GreeterView {
            phase: Phase::Connecting,
            status: greeter_lost(v, keep_status).status,
            ..v
        }),
{
}

} // verus!
