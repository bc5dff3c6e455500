use door::client::{ReauthRequest, Request};
use door::greeter::request_for;
use door::client::{AuthStep, PowerAction, ReauthStep, Session, StartOutcome};
use door::greeter::{
    conversation_turn, power_message, sessions_message, start_message, Command, Effect, Message, Greeter,
    Phase, SessionChoice, WorkerNext,
};
use door::locker;

fn ready_greeter() -> Greeter {
    let mut g = Greeter::new();
    g.update(Message::WorkerReady);
    g.update(Message::Sessions(vec![
        Session {
            id: "hyprland".to_string(),
            name: "Hyprland".to_string(),
            comment: None,
        },
        Session {
            id: "sway".to_string(),
            name: "Sway".to_string(),
            comment: Some("tiling".to_string()),
        },
    ]));
    g
}

#[test]
fn greeter_starts_connecting() {
    let g = Greeter::new();
    assert_eq!(g.phase, Phase::Connecting);
    assert_eq!(g.status, "Connecting to doord…");
    assert!(!g.connected);
}

#[test]
fn worker_ready_then_sessions_selects_the_first() {
    let g = ready_greeter();
    assert_eq!(g.phase, Phase::Ready);
    assert_eq!(g.status, "Select a session and sign in.");
    assert_eq!(g.sessions.len(), 2);
    assert_eq!(g.sessions[1].name, "Sway");
    assert_eq!(g.selected.as_ref().unwrap().id, "hyprland");
}

#[test]
fn a_new_session_list_keeps_the_selection() {
    let mut g = ready_greeter();
    g.update(Message::SessionPicked(SessionChoice {
        id: "sway".to_string(),
        name: "Sway".to_string(),
    }));
    g.update(Message::Sessions(vec![]));
    assert_eq!(g.selected.as_ref().unwrap().id, "sway");
    assert!(g.sessions.is_empty());
}

#[test]
fn login_needs_a_username_and_a_session() {
    let mut g = ready_greeter();
    let r = g.update(Message::LoginPressed);
    assert!(r.outbox.is_none());
    assert_eq!(g.status, "Enter a username.");
    g.update(Message::UsernameChanged("stephen".to_string()));
    g.selected = None;
    let r = g.update(Message::LoginPressed);
    assert!(r.outbox.is_none());
    assert_eq!(g.status, "Select a session.");
    assert!(!g.status_error);
}

#[test]
fn pretyped_password_answers_the_password_prompt_then_start() {
    let mut g = ready_greeter();
    g.update(Message::UsernameChanged("stephen".to_string()));
    g.update(Message::PasswordChanged("hunter2".to_string()));
    let r = g.update(Message::LoginPressed);
    let out = r.outbox.unwrap();
    assert_eq!(
        out.command,
        Command::Authenticate {
            username: "stephen".to_string()
        }
    );
    assert_eq!(g.phase, Phase::Authenticating);
    assert_eq!(g.status, "Authenticating…");

    let r = g.update(Message::Prompt {
        text: "Password:".to_string(),
        secret: true,
    });
    assert_eq!(r.outbox.unwrap().command, Command::Reply("hunter2".to_string()));
    assert_eq!(r.effect, Effect::Nothing);
    assert_eq!(g.password, "");
    assert_eq!(g.status, "Password:");

    let r = g.update(Message::AuthSucceeded);
    assert_eq!(
        r.outbox.unwrap().command,
        Command::Start {
            session_id: "hyprland".to_string()
        }
    );
    assert_eq!(g.status, "Starting Hyprland…");

    let r = g.update(Message::SessionStarted);
    assert_eq!(r.effect, Effect::Exit);
    assert_eq!(g.phase, Phase::Started);
    assert_eq!(g.status, "Session started.");
}

#[test]
fn a_second_factor_is_typed_into_the_prompt_field() {
    let mut g = ready_greeter();
    g.update(Message::UsernameChanged("stephen".to_string()));
    g.update(Message::LoginPressed);
    let r = g.update(Message::Prompt {
        text: "PIN:".to_string(),
        secret: true,
    });
    assert!(r.outbox.is_none());
    assert_eq!(r.effect, Effect::FocusPrompt);
    assert_eq!(g.prompt.as_ref().unwrap().text, "PIN:");
    assert_eq!(g.status, "");

    g.update(Message::PromptChanged("1234".to_string()));
    let r = g.update(Message::PromptSubmitted);
    let out = r.outbox.unwrap();
    assert_eq!(out.command, Command::Reply("1234".to_string()));
    assert!(out.keep_status_if_lost);
    assert!(g.prompt.is_none());
    assert_eq!(g.status, "Authenticating…");
}

#[test]
fn a_notice_mid_authentication_is_a_cue() {
    let mut g = ready_greeter();
    g.update(Message::UsernameChanged("stephen".to_string()));
    g.update(Message::LoginPressed);
    g.update(Message::Notice("Please touch the device".to_string()));
    assert_eq!(g.cue.as_deref(), Some("Please touch the device"));
    assert_eq!(g.status, "");
    let mut idle = ready_greeter();
    idle.update(Message::Notice("Welcome".to_string()));
    assert!(idle.cue.is_none());
    assert_eq!(idle.status, "Welcome");
}

#[test]
fn failures_clear_secrets_and_show_an_error() {
    let mut g = ready_greeter();
    g.update(Message::UsernameChanged("stephen".to_string()));
    g.update(Message::PasswordChanged("wrong".to_string()));
    g.update(Message::LoginPressed);
    g.update(Message::AuthFailed("Authentication failed".to_string()));
    assert_eq!(g.password, "");
    assert!(g.status_error);
    assert_eq!(g.status, "Authentication failed");
    assert_eq!(g.phase, Phase::Ready);

    g.update(Message::Fatal("socket closed".to_string()));
    assert_eq!(g.status, "Cannot reach doord: socket closed");
    assert_eq!(g.phase, Phase::Connecting);
}

#[test]
fn success_without_a_session_goes_back_to_ready() {
    let mut g = ready_greeter();
    g.selected = None;
    g.password = "x".to_string();
    let r = g.update(Message::AuthSucceeded);
    assert!(r.outbox.is_none());
    assert_eq!(g.status, "Authenticated, but no session selected.");
    assert_eq!(g.phase, Phase::Ready);
    assert_eq!(g.password, "");
}

#[test]
fn nothing_leaves_before_the_worker_is_ready() {
    let mut g = Greeter::new();
    let r = g.update(Message::PowerPressed(PowerAction::Reboot));
    assert!(r.outbox.is_none());
    assert_eq!(g.status, "Not connected to doord yet.");
    let mut g = ready_greeter();
    let r = g.update(Message::PowerPressed(PowerAction::Suspend));
    assert_eq!(r.outbox.unwrap().command, Command::Power(PowerAction::Suspend));
}

#[test]
fn a_lost_worker_is_reported() {
    let mut g = ready_greeter();
    g.command_lost(false);
    assert_eq!(g.status, "Lost the connection to doord.");
    assert_eq!(g.phase, Phase::Connecting);
    let mut g = ready_greeter();
    g.status = "Authenticating…".to_string();
    g.command_lost(true);
    assert_eq!(g.status, "Authenticating…");
    assert_eq!(g.phase, Phase::Connecting);
}

#[test]
fn worker_reports() {
    let (e, next) = conversation_turn(Ok(AuthStep::Question {
        text: "Password:".to_string(),
        secret: true,
    }));
    assert!(matches!(e, Message::Prompt { secret: true, .. }));
    assert_eq!(next, WorkerNext::AwaitReply);
    let (e, next) = conversation_turn(Ok(AuthStep::Info("touch".to_string())));
    assert!(matches!(e, Message::Notice(ref t) if t == "touch"));
    assert_eq!(next, WorkerNext::ReadNext);
    let (e, next) = conversation_turn(Ok(AuthStep::Success));
    assert!(matches!(e, Message::AuthSucceeded));
    assert_eq!(next, WorkerNext::Finished);
    let (e, next) = conversation_turn(Err("io".to_string()));
    assert!(matches!(e, Message::Fatal(ref t) if t == "io"));
    assert_eq!(next, WorkerNext::Finished);

    let e = sessions_message(Err("timed out".to_string()));
    assert!(matches!(e, Message::DaemonError(ref t) if t == "Could not list sessions: timed out"));
    assert!(matches!(
        start_message(Ok(StartOutcome::Refused("no".to_string()))),
        Message::DaemonError(ref t) if t == "no"
    ));
    assert!(matches!(start_message(Ok(StartOutcome::Started)), Message::SessionStarted));
    assert!(power_message(Ok(None)).is_none());
    assert!(matches!(power_message(Err("gone".to_string())), Some(Message::DaemonError(ref t)) if t == "gone"));
}

fn ready_locker(dev: bool) -> locker::Locker {
    let mut l = locker::Locker::new("stephen".to_string(), dev);
    l.update(locker::Message::WorkerReady);
    l
}

#[test]
fn locker_unlocks_only_on_allow() {
    let mut l = ready_locker(false);
    l.update(locker::Message::PasswordChanged("hunter2".to_string()));
    let r = l.update(locker::Message::UnlockPressed);
    assert_eq!(r.outbox.unwrap().command, locker::Command::Authenticate);
    assert_eq!(l.phase, locker::Phase::Authenticating);
    let r = l.update(locker::Message::Prompt {
        text: "Password:".to_string(),
        secret: true,
    });
    assert_eq!(
        r.outbox.unwrap().command,
        locker::Command::Reply("hunter2".to_string())
    );
    assert_eq!(l.password, "");
    let r = l.update(locker::Message::AuthSucceeded);
    assert_eq!(r.effect, locker::Effect::Unlock);
    assert_eq!(l.phase, locker::Phase::Unlocking);
    assert_eq!(l.status, "Unlocked.");
}

#[test]
fn locker_denial_refocuses_the_password() {
    let mut l = ready_locker(false);
    l.update(locker::Message::UnlockPressed);
    let r = l.update(locker::Message::AuthFailed("Authentication failed".to_string()));
    assert_eq!(r.effect, locker::Effect::FocusPassword);
    assert_eq!(l.phase, locker::Phase::Locked);
    assert!(l.status_error);
    let again = l.update(locker::Message::UnlockPressed);
    assert!(again.outbox.is_some());
}

#[test]
fn a_stray_unlock_is_handed_back_not_acted_on() {
    let mut l = ready_locker(false);
    let r = l.update(locker::Message::UnLock);
    assert_eq!(r.effect, locker::Effect::Unlock);
    assert_eq!(l.phase, locker::Phase::Locked);
    let mut d = ready_locker(true);
    let r = d.update(locker::Message::UnLock);
    assert_eq!(r.effect, locker::Effect::Exit);
}

#[test]
fn locker_ignores_unlock_presses_mid_attempt() {
    let mut l = ready_locker(false);
    l.update(locker::Message::UnlockPressed);
    let r = l.update(locker::Message::UnlockPressed);
    assert!(r.outbox.is_none());
}

#[test]
fn locker_not_ready_and_lost_worker() {
    let mut l = locker::Locker::new("stephen".to_string(), false);
    let r = l.update(locker::Message::UnlockPressed);
    assert!(r.outbox.is_none());
    assert_eq!(l.status, "Not ready yet.");
    l.command_lost(false);
    assert_eq!(
        l.status,
        "The unlock worker is gone — switch to a TTY to recover."
    );
    assert!(l.status_error);
    assert_eq!(l.phase, locker::Phase::Locked);
}

#[test]
fn reauth_worker_reports() {
    let (e, next) = locker::reauth_turn(Ok(ReauthStep::Deny("Authentication failed".to_string())));
    assert!(matches!(e, locker::Message::AuthFailed(ref t) if t == "Authentication failed"));
    assert_eq!(next, WorkerNext::Finished);
    let (e, next) = locker::reauth_turn(Ok(ReauthStep::Error("bad".to_string())));
    assert!(matches!(e, locker::Message::Notice(_)));
    assert_eq!(next, WorkerNext::ReadNext);
    let e = locker::unreachable_message("no socket".to_string());
    assert!(matches!(e, locker::Message::Fatal(ref t) if t == "Cannot reach doord: no socket"));
}

#[test]
fn lock_program_arguments() {
    assert_eq!(locker::invocation(None), locker::Invocation::Lock);
    assert_eq!(locker::invocation(Some("--help")), locker::Invocation::Help);
    assert_eq!(locker::invocation(Some("-h")), locker::Invocation::Help);
    assert_eq!(locker::invocation(Some("-V")), locker::Invocation::Version);
    assert_eq!(locker::invocation(Some("--version")), locker::Invocation::Version);
    assert_eq!(
        locker::invocation(Some("--lock")),
        locker::Invocation::Unknown("--lock".to_string())
    );
}

#[test]
fn session_lock_support_from_the_registry() {
    let sway = vec![
        "wl_compositor".to_string(),
        "ext_session_lock_manager_v1".to_string(),
    ];
    let kwin = vec!["wl_compositor".to_string(), "org_kde_kwin_idle".to_string()];
    assert!(locker::supports_session_lock(Some(&sway)));
    assert!(!locker::supports_session_lock(Some(&kwin)));
    assert!(locker::supports_session_lock(None));
}

#[test]
fn commands_become_requests() {
    assert_eq!(
        request_for(Command::Authenticate { username: "stephen".to_string() }),
        Request::BeginAuth { username: "stephen".to_string() }
    );
    assert_eq!(
        request_for(Command::Reply("hunter2".to_string())),
        Request::AuthReply { response: "hunter2".to_string() }
    );
    assert_eq!(request_for(Command::Power(PowerAction::PowerOff)), Request::Power(PowerAction::PowerOff));
    assert_eq!(locker::reauth_request_for(locker::Command::Authenticate), ReauthRequest::Begin);
}
