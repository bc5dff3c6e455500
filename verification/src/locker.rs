//! The lock screen's unlock flow as a state machine. The UI and the reauth worker
//! feed it events; it answers with the next state, at most one command for the
//! worker and what the UI should do.
//!
//! Only the daemon's `Allow` verdict unlocks. A stray unlock request reaching the
//! state machine is handed back to the session-lock shell, never acted on here
//! (outside the windowed development mode, where it just exits).
use vstd::prelude::*;

use crate::client::{ReauthRequest, ReauthStep};
use crate::greeter::{owned, prompt_view, PromptField, PromptView, WorkerNext};
use crate::text::{chars_of, literal, push_str, same_chars, string_of};

verus! {

/// Where the locker is in the unlock flow.
#[derive(Debug, Clone, Copy, PartialEq, Eq, Structural)]
pub enum Phase {
    /// Locked, ready for the user to enter credentials.
    Locked,
    /// A reauthentication is in flight (waiting on PAM prompts / verdict).
    Authenticating,
    /// The daemon said Allow; the unlock is being handed to the compositor.
    Unlocking,
}

/// What the UI asks the worker to do.
#[derive(Debug, PartialEq, Eq)]
pub enum Command {
    /// Dial the reauth socket and run one verify-only attempt for our own uid.
    Authenticate,
    /// Answer the most recent PAM prompt.
    Reply(String),
}

/// A command as plain values.
pub enum CommandView {
    Authenticate,
    Reply(Seq<char>),
}

impl View for Command {
    type V = CommandView;

    open spec fn view(&self) -> CommandView {
        match self {
            Command::Authenticate => CommandView::Authenticate,
            Command::Reply(secret) => CommandView::Reply(secret@),
        }
    }
}

/// A command handed to the worker. If the worker turns out to be gone, the caller
/// reports it with [`Locker::command_lost`], passing `keep_status_if_lost`.
pub struct Outbox {
    pub command: Command,
    pub keep_status_if_lost: bool,
}

/// What the UI does besides rendering the new state.
#[derive(Debug, Clone, Copy, PartialEq, Eq, Structural)]
pub enum Effect {
    Nothing,
    /// Move keyboard focus to the prompt field.
    FocusPrompt,
    /// Move keyboard focus to the password field.
    FocusPassword,
    /// Hand the unlock to the session-lock shell (it unlocks and exits).
    Unlock,
    /// Exit the process (the windowed development mode's unlock).
    Exit,
}

/// The answer to one event.
pub struct Reaction {
    pub outbox: Option<Outbox>,
    pub effect: Effect,
}

/// An event from the worker or the user. `WorkerReady` means the worker's command
/// channel is now held by the caller; `UnLock` is an unlock request that reached
/// the state machine instead of the session-lock shell.
pub enum Message {
    WorkerReady,
    /// PAM wants input; `secret` ⇒ it is the password (auto-answered if typed).
    Prompt { text: String, secret: bool },
    Notice(String),
    PromptChanged(String),
    PromptSubmitted,
    AuthSucceeded,
    AuthFailed(String),
    DaemonError(String),
    Fatal(String),
    PasswordChanged(String),
    UnlockPressed,
    UnLock,
}

/// The locker's state. `username` is for display only.
pub struct Locker {
    pub phase: Phase,
    /// Running as a plain window instead of session-lock surfaces.
    pub dev: bool,
    pub username: String,
    pub password: String,
    pub status: String,
    /// Whether `status` is an error (shown in the error color).
    pub status_error: bool,
    /// Whether the worker's command channel has been handed over.
    pub connected: bool,
    pub prompt: Option<PromptField>,
    /// A one-way PAM cue shown mid-authentication ("Please touch the device").
    pub cue: Option<String>,
}

/// The locker's state as plain values.
pub struct LockerView {
    pub phase: Phase,
    pub dev: bool,
    pub username: Seq<char>,
    pub password: Seq<char>,
    pub status: Seq<char>,
    pub status_error: bool,
    pub connected: bool,
    pub prompt: Option<PromptView>,
    pub cue: Option<Seq<char>>,
}

impl View for Locker {
    type V = LockerView;

    open spec fn view(&self) -> LockerView {
        LockerView {
            phase: self.phase,
            dev: self.dev,
            username: self.username@,
            password: self.password@,
            status: self.status@,
            status_error: self.status_error,
            connected: self.connected,
            prompt: prompt_view(self.prompt),
            cue: match self.cue {
                Some(c) => Some(c@),
                None => None,
            },
        }
    }
}

/// Handing `c` to the worker: it goes out when the worker is connected; otherwise
/// nothing goes out and the status says so.
pub open spec fn lock_sent(v: LockerView, c: CommandView, keep: bool) -> (
    LockerView,
    Option<(CommandView, bool)>,
) {
    if v.connected {
        (v, Some((c, keep)))
    } else {
        (LockerView { status: "Not ready yet."@, ..v }, None)
    }
}

/// The state after a failed attempt: the password and any prompt or cue are
/// dropped, `status` is shown as an error and the screen is locked again.
pub open spec fn lock_rejected(v: LockerView, status: Seq<char>) -> LockerView {
    LockerView {
        password: Seq::empty(),
        prompt: None,
        cue: None,
        status,
        status_error: true,
        phase: Phase::Locked,
        ..v
    }
}

/// The locker's answer to one event: the next state, the command handed to the
/// worker (with whether a lost worker keeps the status line), and the UI effect.
pub open spec fn locker_next(v: LockerView, e: Message) -> (
    LockerView,
    Option<(CommandView, bool)>,
    Effect,
) {
    match e {
        Message::WorkerReady => (LockerView { connected: true, ..v }, None, Effect::Nothing),
        Message::Prompt { text, secret } => {
            let w = LockerView { cue: None, ..v };
            if secret && v.password.len() > 0 {
                let (s, out) = lock_sent(
                    LockerView { status: text@, password: Seq::empty(), ..w },
                    CommandView::Reply(v.password),
                    false,
                );
                (s, out, Effect::Nothing)
            } else {
                (
                    LockerView {
                        status: Seq::empty(),
                        status_error: false,
                        prompt: Some(PromptView { text: text@, secret, value: Seq::empty() }),
                        ..w
                    },
                    None,
                    Effect::FocusPrompt,
                )
            }
        },
        Message::Notice(text) => {
            if v.phase == Phase::Authenticating && v.prompt is None {
                (LockerView { cue: Some(text@), status: Seq::empty(), ..v }, None, Effect::Nothing)
            } else {
                (LockerView { status: text@, ..v }, None, Effect::Nothing)
            }
        },
        Message::PromptChanged(value) => match v.prompt {
            Some(p) => (
                LockerView { prompt: Some(PromptView { value: value@, ..p }), ..v },
                None,
                Effect::Nothing,
            ),
            None => (v, None, Effect::Nothing),
        },
        Message::PromptSubmitted => match v.prompt {
            Some(p) => {
                let (s, out) = lock_sent(
                    LockerView { prompt: None, ..v },
                    CommandView::Reply(p.value),
                    true,
                );
                (LockerView { status: "Authenticating…"@, ..s }, out, Effect::Nothing)
            },
            None => (v, None, Effect::Nothing),
        },
        Message::AuthSucceeded => (
            LockerView {
                password: Seq::empty(),
                prompt: None,
                cue: None,
                phase: Phase::Unlocking,
                status: "Unlocked."@,
                status_error: false,
                ..v
            },
            None,
            Effect::Unlock,
        ),
        Message::AuthFailed(reason) => (lock_rejected(v, reason@), None, Effect::FocusPassword),
        Message::DaemonError(message) => (lock_rejected(v, message@), None, Effect::Nothing),
        Message::Fatal(message) => (lock_rejected(v, message@), None, Effect::Nothing),
        Message::PasswordChanged(value) => (
            LockerView { password: value@, ..v },
            None,
            Effect::Nothing,
        ),
        Message::UnlockPressed => {
            if v.phase == Phase::Locked {
                let (s, out) = lock_sent(
                    LockerView {
                        status_error: false,
                        phase: Phase::Authenticating,
                        status: "Authenticating…"@,
                        prompt: None,
                        cue: None,
                        ..v
                    },
                    CommandView::Authenticate,
                    false,
                );
                (s, out, Effect::Nothing)
            } else {
                (v, None, Effect::Nothing)
            }
        },
        Message::UnLock => (
            v,
            None,
            if v.dev {
                Effect::Exit
            } else {
                Effect::Unlock
            },
        ),
    }
}

/// The state after the worker was found gone while handing it a command: locked,
/// with an error that points to the TTY, unless the outbox kept the status line.
pub open spec fn locker_lost(v: LockerView, keep_status: bool) -> LockerView {
    LockerView {
        phase: Phase::Locked,
        status_error: true,
        status: if keep_status {
            v.status
        } else {
            "The unlock worker is gone — switch to a TTY to recover."@
        },
        ..v
    }
}

pub open spec fn lock_outbox_view(o: Option<Outbox>) -> Option<(CommandView, bool)> {
    match o {
        Some(o) => Some((o.command@, o.keep_status_if_lost)),
        None => None,
    }
}

impl Locker {
    /// The state on launch: locked, nothing typed, no status.
    pub fn new(username: String, dev: bool) -> (l: Locker)
        ensures
            l@ == (LockerView {
                phase: Phase::Locked,
                dev,
                username: username@,
                password: Seq::empty(),
                status: Seq::empty(),
                status_error: false,
                connected: false,
                prompt: None,
                cue: None,
            }),
    {
        Locker {
            phase: Phase::Locked,
            dev,
            username,
            password: String::new(),
            status: String::new(),
            status_error: false,
            connected: false,
            prompt: None,
            cue: None,
        }
    }

    /// Hand `command` to the worker when it is connected; otherwise say so.
    fn send(&mut self, command: Command, keep: bool) -> (o: Option<Outbox>)
        ensures
            (final(self)@, lock_outbox_view(o)) == lock_sent(old(self)@, command@, keep),
    {
        if self.connected {
            Some(Outbox { command, keep_status_if_lost: keep })
        } else {
            self.status = owned("Not ready yet.");
            None
        }
    }

    /// The worker was gone when `Outbox::command` was handed to it.
    pub fn command_lost(&mut self, keep_status: bool)
        ensures
            final(self)@ == locker_lost(old(self)@, keep_status),
    {
        if !keep_status {
            self.status = owned("The unlock worker is gone — switch to a TTY to recover.");
        }
        self.status_error = true;
        self.phase = Phase::Locked;
    }

    /// Back to the locked form after a failed attempt.
    fn reject(&mut self, status: String)
        ensures
            final(self)@ == lock_rejected(old(self)@, status@),
    {
        self.password = String::new();
        self.prompt = None;
        self.cue = None;
        self.status = status;
        self.status_error = true;
        self.phase = Phase::Locked;
    }

    /// Answer one event: update the state, and say what goes to the worker and
    /// what the UI does.
    pub fn update(&mut self, event: Message) -> (r: Reaction)
        ensures
            (final(self)@, lock_outbox_view(r.outbox), r.effect) == locker_next(old(self)@, event),
    {
        match event {
            Message::WorkerReady => {
                self.connected = true;
                Reaction { outbox: None, effect: Effect::Nothing }
            },
            Message::Prompt { text, secret } => {
                self.cue = None;
                if secret && !self.password.as_str().is_empty() {
                    self.status = text;
                    let mut reply = String::new();
                    std::mem::swap(&mut reply, &mut self.password);
                    let outbox = self.send(Command::Reply(reply), false);
                    Reaction { outbox, effect: Effect::Nothing }
                } else {
                    self.status = String::new();
                    self.status_error = false;
                    self.prompt = Some(PromptField { text, secret, value: String::new() });
                    Reaction { outbox: None, effect: Effect::FocusPrompt }
                }
            },
            Message::Notice(text) => {
                if self.phase == Phase::Authenticating && self.prompt.is_none() {
                    self.cue = Some(text);
                    self.status = String::new();
                } else {
                    self.status = text;
                }
                Reaction { outbox: None, effect: Effect::Nothing }
            },
            Message::PromptChanged(value) => {
                match self.prompt.take() {
                    Some(p) => {
                        self.prompt = Some(PromptField { text: p.text, secret: p.secret, value });
                    },
                    None => {},
                }
                Reaction { outbox: None, effect: Effect::Nothing }
            },
            Message::PromptSubmitted => {
                match self.prompt.take() {
                    Some(p) => {
                        let outbox = self.send(Command::Reply(p.value), true);
                        self.status = owned("Authenticating…");
                        Reaction { outbox, effect: Effect::Nothing }
                    },
                    None => Reaction { outbox: None, effect: Effect::Nothing },
                }
            },
            Message::AuthSucceeded => {
                self.password = String::new();
                self.prompt = None;
                self.cue = None;
                self.phase = Phase::Unlocking;
                self.status = owned("Unlocked.");
                self.status_error = false;
                Reaction { outbox: None, effect: Effect::Unlock }
            },
            Message::AuthFailed(reason) => {
                self.reject(reason);
                Reaction { outbox: None, effect: Effect::FocusPassword }
            },
            Message::DaemonError(message) => {
                self.reject(message);
                Reaction { outbox: None, effect: Effect::Nothing }
            },
            Message::Fatal(message) => {
                self.reject(message);
                Reaction { outbox: None, effect: Effect::Nothing }
            },
            Message::PasswordChanged(value) => {
                self.password = value;
                Reaction { outbox: None, effect: Effect::Nothing }
            },
            Message::UnlockPressed => {
                if self.phase == Phase::Locked {
                    self.status_error = false;
                    self.phase = Phase::Authenticating;
                    self.status = owned("Authenticating…");
                    self.prompt = None;
                    self.cue = None;
                    let outbox = self.send(Command::Authenticate, false);
                    Reaction { outbox, effect: Effect::Nothing }
                } else {
                    Reaction { outbox: None, effect: Effect::Nothing }
                }
            },
            Message::UnLock => {
                if self.dev {
                    Reaction { outbox: None, effect: Effect::Exit }
                } else {
                    Reaction { outbox: None, effect: Effect::Unlock }
                }
            },
        }
    }
}

/// The request the reauth worker sends for a command from the UI (an attempt
/// begins on a fresh connection, after its `Hello`).
pub fn reauth_request_for(command: Command) -> (r: ReauthRequest)
    ensures
        r == (match command {
            Command::Authenticate => ReauthRequest::Begin,
            Command::Reply(response) => ReauthRequest::Reply { response },
        }),
{
    match command {
        Command::Authenticate => ReauthRequest::Begin,
        Command::Reply(response) => ReauthRequest::Reply { response },
    }
}

/// What the reauth worker reports for one step read during the dialogue (`Err`
/// carries the printed client error), and what it does next.
pub open spec fn reauth_turn_of(step: Result<ReauthStep, String>) -> (Message, WorkerNext) {
    match step {
        Ok(ReauthStep::Question { text, secret }) => (
            Message::Prompt { text, secret },
            WorkerNext::AwaitReply,
        ),
        Ok(ReauthStep::Info(text)) => (Message::Notice(text), WorkerNext::ReadNext),
        Ok(ReauthStep::Error(text)) => (Message::Notice(text), WorkerNext::ReadNext),
        Ok(ReauthStep::Allow) => (Message::AuthSucceeded, WorkerNext::Finished),
        Ok(ReauthStep::Deny(reason)) => (Message::AuthFailed(reason), WorkerNext::Finished),
        Err(e) => (Message::Fatal(e), WorkerNext::Finished),
    }
}

/// The reauth worker's report on one step of the dialogue and what it does next.
pub fn reauth_turn(step: Result<ReauthStep, String>) -> (r: (Message, WorkerNext))
    ensures
        r == reauth_turn_of(step),
{
    match step {
        Ok(ReauthStep::Question { text, secret }) => (
            Message::Prompt { text, secret },
            WorkerNext::AwaitReply,
        ),
        Ok(ReauthStep::Info(text)) => (Message::Notice(text), WorkerNext::ReadNext),
        Ok(ReauthStep::Error(text)) => (Message::Notice(text), WorkerNext::ReadNext),
        Ok(ReauthStep::Allow) => (Message::AuthSucceeded, WorkerNext::Finished),
        Ok(ReauthStep::Deny(reason)) => (Message::AuthFailed(reason), WorkerNext::Finished),
        Err(e) => (Message::Fatal(e), WorkerNext::Finished),
    }
}

/// The reauth worker's report when the daemon's socket could not be dialed
/// (`e` is the printed client error).
pub fn unreachable_message(e: String) -> (r: Message)
    ensures
        r matches Message::Fatal(m) && m@ == "Cannot reach doord: "@ + e@,
{
    let mut v: Vec<char> = Vec::new();
    push_str(&mut v, "Cannot reach doord: ");
    push_str(&mut v, e.as_str());
    Message::Fatal(string_of(&v))
}

/// Only the daemon's verdict unlocks: the state machine reaches `Unlocking` only
/// from `AuthSucceeded`; it asks the shell to unlock only on `AuthSucceeded` or
/// when handing back a stray unlock request (state untouched, and never in
/// development mode, which exits instead); a new attempt starts only from the
/// locked form.
pub proof fn lemma_only_the_verdict_unlocks(v: LockerView, e: Message)
    ensures
        ({
            let (w, out, effect) = locker_next(v, e);
            &&& (w.phase == Phase::Unlocking && v.phase != Phase::Unlocking) ==> e is AuthSucceeded
            &&& effect == Effect::Unlock ==> (e is AuthSucceeded || (e is UnLock && !v.dev
                && w == v))
            &&& effect == Effect::Exit ==> (e is UnLock && v.dev)
            &&& out matches Some((CommandView::Authenticate, _)) ==> (e is UnlockPressed
                && v.phase == Phase::Locked && w.phase == Phase::Authenticating)
        }),
{
}

/// What leaves the locker: nothing while the worker is not connected, and the typed
/// password only as the reply to a secret prompt, after which the field is empty;
/// any other reply is the typed prompt field's value.
pub proof fn lemma_what_leaves_the_locker(v: LockerView, e: Message)
    ensures
        ({
            let (w, out, _) = locker_next(v, e);
            &&& !v.connected ==> out is None
            &&& out matches Some((CommandView::Reply(x), _)) ==> {
                ||| (e matches Message::Prompt { secret, .. } && secret && x == v.password
                    && x.len() > 0 && w.password.len() == 0)
                ||| (e is PromptSubmitted && (v.prompt matches Some(p) && x == p.value)
                    && w.prompt is None)
            }
        }),
{
}

/// Every verdict drops the secrets: after `Allow`, a denial, a daemon error or an
/// unreachable daemon, the password is empty and no prompt or cue is left.
pub proof fn lemma_lock_verdict_clears_secrets(v: LockerView, e: Message)
    requires
        e is AuthSucceeded || e is AuthFailed || e is DaemonError || e is Fatal,
    ensures
        ({
            let w = locker_next(v, e).0;
            w.password.len() == 0 && w.prompt is None && w.cue is None
        }),
{
}

/// What the lock program's first argument asks for.
#[derive(Debug, PartialEq, Eq)]
pub enum Invocation {
    /// No argument: lock the session.
    Lock,
    /// `--help` / `-h`: print the usage.
    Help,
    /// `--version` / `-V`: print the version.
    Version,
    /// Anything else: refused, with the usage.
    Unknown(String),
}

/// What a first argument asks for (`None`: there is none).
pub open spec fn invocation_of(first: Option<Seq<char>>) -> Option<Invocation> {
    match first {
        None => Some(Invocation::Lock),
        Some(a) => if a == "--help"@ || a == "-h"@ {
            Some(Invocation::Help)
        } else if a == "--version"@ || a == "-V"@ {
            Some(Invocation::Version)
        } else {
            None
        },
    }
}

/// Whether `a` is the text of `lit`.
fn is_word(a: &Vec<char>, lit: &str) -> (b: bool)
    ensures
        b == (a@ == lit@),
{
    same_chars(a, &literal(lit))
}

/// The lock program's reading of its first argument: every recognised argument
/// ends the program, so only the first one matters.
pub fn invocation(first: Option<&str>) -> (r: Invocation)
    ensures
        match first {
            None => r == Invocation::Lock,
            Some(a) => match invocation_of(Some(a@)) {
                Some(i) => r == i,
                None => r matches Invocation::Unknown(s) && s@ == a@,
            },
        },
{
    match first {
        None => Invocation::Lock,
        Some(a) => {
            let v = chars_of(a);
            if is_word(&v, "--help") || is_word(&v, "-h") {
                Invocation::Help
            } else if is_word(&v, "--version") || is_word(&v, "-V") {
                Invocation::Version
            } else {
                Invocation::Unknown(owned(a))
            }
        },
    }
}

/// Whether the advertised global interface names include the session-lock manager.
pub open spec fn offers_session_lock(names: Seq<String>) -> bool {
    exists|i: int| 0 <= i < names.len() && #[trigger] names[i]@ == "ext_session_lock_manager_v1"@
}

/// Whether a compositor offers the session-lock protocol, from the global
/// interface names it advertises (`None` when there is no display or its registry
/// could not be read: the lock shell then reports its own connection error).
pub fn supports_session_lock(interfaces: Option<&Vec<String>>) -> (b: bool)
    ensures
        b == (match interfaces {
            None => true,
            Some(names) => offers_session_lock(names@),
        }),
{
    match interfaces {
        None => true,
        Some(names) => {
            let wanted = literal("ext_session_lock_manager_v1");
            let mut i: usize = 0;
            while i < names.len()
                invariant
                    i <= names.len(),
                    interfaces == Some(names),
                    wanted@ == "ext_session_lock_manager_v1"@,
                    forall|k: int| 0 <= k < i ==> #[trigger] names@[k]@ != wanted@,
                decreases names.len() - i,
            {
                let name = chars_of(names[i].as_str());
                if same_chars(&name, &wanted) {
                    proof {
                        assert(names@[i as int]@ == "ext_session_lock_manager_v1"@);
                    }
                    return true;
                }
                i += 1;
            }
            false
        },
    }
}

/// Every verdict that ends an attempt without `Allow` locks the screen again:
/// after a denial, a daemon error or an unreachable daemon, from any state, the
/// locker is `Locked`, shows the message as an error, holds no password, prompt or
/// cue and sends nothing; a denial puts the focus back on the password field.
pub proof fn lemma_failed_attempt_relocks(v: LockerView, e: Message)
    requires
        e is AuthFailed || e is DaemonError || e is Fatal,
    ensures
        ({
            let (w, out, effect) = locker_next(v, e);
            let message = match e {
                Message::AuthFailed(m) => m@,
                Message::DaemonError(m) => m@,
                Message::Fatal(m) => m@,
                _ => Seq::empty(),
            };
            &&& w.phase == Phase::Locked
            &&& w.status == message
            &&& w.status_error
            &&& w.password.len() == 0 && w.prompt is None && w.cue is None
            &&& w.username == v.username && w.dev == v.dev && w.connected == v.connected
            &&& out is None
            &&& effect == (if e is AuthFailed { Effect::FocusPassword } else { Effect::Nothing })
        }),
{
}

/// A failed attempt can be retried: once it has ended, pressing unlock with the
/// worker connected starts a new attempt, sending `Authenticate`.
pub proof fn lemma_failed_attempt_can_be_retried(v: LockerView, e: Message)
    requires
        e is AuthFailed || e is DaemonError || e is Fatal,
        v.connected,
    ensures
        ({
            let (w, out, _) = locker_next(locker_next(v, e).0, Message::UnlockPressed);
            &&& w.phase == Phase::Authenticating
            &&& out == Some((CommandView::Authenticate, false))
            &&& w.status == "Authenticating…"@
            &&& !w.status_error
        }),
{
}

/// Pressing unlock starts an attempt only from the locked form: there it clears
/// the error, drops any stale prompt or cue, is authenticating and sends
/// `Authenticate` when connected (else says it is not ready); in any other phase
/// nothing changes.
pub proof fn lemma_unlock_press(v: LockerView)
    ensures
        ({
            let (w, out, effect) = locker_next(v, Message::UnlockPressed);
            &&& effect == Effect::Nothing
            &&& v.phase == Phase::Locked ==> {
                &&& w.phase == Phase::Authenticating
                &&& !w.status_error && w.prompt is None && w.cue is None
                &&& v.connected ==> (out == Some((CommandView::Authenticate, false))
                    && w.status == "Authenticating…"@)
                &&& !v.connected ==> (out is None && w.status == "Not ready yet."@)
            }
            &&& v.phase != Phase::Locked ==> (w == v && out is None)
        }),
{
}

/// `Allow` unlocks: the password, prompt and cue are dropped, the phase is
/// `Unlocking`, the status reads "Unlocked." and the shell is asked to unlock.
pub proof fn lemma_allow_unlocks(v: LockerView)
    ensures
        ({
            let (w, out, effect) = locker_next(v, Message::AuthSucceeded);
            &&& w.phase == Phase::Unlocking
            &&& w.status == "Unlocked."@ && !w.status_error
            &&& w.password.len() == 0 && w.prompt is None && w.cue is None
            &&& out is None && effect == Effect::Unlock
        }),
{
}

/// The worker coming up only connects the locker; nothing else changes.
pub proof fn lemma_lock_worker_ready(v: LockerView)
    ensures
        locker_next(v, Message::WorkerReady).0 == (LockerView { connected: true, ..v }),
        locker_next(v, Message::WorkerReady).1 is None,
{
}

/// A PAM prompt is answered from the form when it can be: a password prompt with a
/// password typed sends that password (when connected) and empties the field;
/// any other prompt opens an empty input field labelled with its text and moves
/// the focus there.
pub proof fn lemma_lock_prompt_handling(v: LockerView, text: String, secret: bool)
    ensures
        ({
            let (w, out, effect) = locker_next(v, Message::Prompt { text, secret });
            &&& w.cue is None
            &&& (secret && v.password.len() > 0) ==> {
                &&& w.password.len() == 0
                &&& v.connected ==> (out == Some((CommandView::Reply(v.password), false))
                    && w.status == text@)
                &&& effect == Effect::Nothing
            }
            &&& !(secret && v.password.len() > 0) ==> {
                &&& w.prompt == Some(PromptView { text: text@, secret, value: Seq::empty() })
                &&& w.status.len() == 0 && !w.status_error
                &&& out is None && effect == Effect::FocusPrompt
            }
        }),
{
}

/// The reauth dialogue ends exactly on a verdict and the locker follows it: a
/// question waits for the reply, a message reads on; `Allow` unlocks, while a
/// denial or a broken dialogue locks the screen again with the reason or the
/// error shown.
pub proof fn lemma_reauth_verdicts(v: LockerView, step: Result<ReauthStep, String>)
    ensures
        ({
            let (m, next) = reauth_turn_of(step);
            let (w, _, effect) = locker_next(v, m);
            &&& (next == WorkerNext::Finished) <==> (step is Err
                || (step matches Ok(ReauthStep::Allow))
                || (step matches Ok(ReauthStep::Deny(_))))
            &&& (next == WorkerNext::AwaitReply) <==> (step matches Ok(ReauthStep::Question { .. }))
            &&& step matches Ok(ReauthStep::Allow) ==> (w.phase == Phase::Unlocking && effect
                == Effect::Unlock)
            &&& step matches Ok(ReauthStep::Deny(r)) ==> (w.phase == Phase::Locked && w.status
                == r@ && w.status_error)
            &&& step matches Err(e) ==> (w.phase == Phase::Locked && w.status == e@
                && w.status_error)
        }),
{
}

/// A worker found gone while handing it a command locks the screen again with an
/// error; unless the command kept its own status line, the status points to a
/// TTY for recovery; nothing else changes.
pub proof fn lemma_lost_worker_relocks(v: LockerView, keep_status: bool)
    ensures
        locker_lost(v, keep_status).phase == Phase::Locked,
        locker_lost(v, keep_status).status_error,
        !keep_status ==> locker_lost(v, keep_status).status
            == "The unlock worker is gone — switch to a TTY to recover."@,
        keep_status ==> locker_lost(v, keep_status).status == v.status,
        locker_lost(v, keep_status) == (LockerView {
            phase: Phase::Locked,
            status_error: true,
            status: locker_lost(v, keep_status).status,
            ..v
        }),
{
}

} // verus!
