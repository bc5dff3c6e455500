use door::client::{begin, hello, reauth_hello, ReauthRequest, Request};
use door::client::{
    handshake, list_sessions, power, reauth_handshake, recv_auth, recv_step, start, AuthPrompt,
    AuthStep, ClientError, ReauthResponse, ReauthStep, Response, Session, StartOutcome,
};

#[test]
fn handshake_then_list_sessions() {
    assert_eq!(handshake(Response::Welcome { protocol_version: 1 }), Ok(()));
    let sessions = list_sessions(Response::Sessions(vec![Session {
        id: "hyprland".to_string(),
        name: "Hyprland".to_string(),
        comment: None,
    }]))
    .unwrap();
    assert_eq!(sessions.len(), 1);
    assert_eq!(sessions[0].id, "hyprland");
}

#[test]
fn auth_conversation_password_then_success() {
    assert_eq!(
        recv_auth(Response::Auth(AuthPrompt::Question {
            text: "Password:".to_string(),
            secret: true,
        }))
        .unwrap(),
        AuthStep::Question {
            text: "Password:".to_string(),
            secret: true
        }
    );
    assert_eq!(recv_auth(Response::AuthSuccess).unwrap(), AuthStep::Success);
}

#[test]
fn start_refused_maps_to_refused() {
    assert_eq!(
        start(Response::Error {
            message: "no such session".to_string(),
        })
        .unwrap(),
        StartOutcome::Refused("no such session".to_string())
    );
    assert_eq!(start(Response::Started).unwrap(), StartOutcome::Started);
}

#[test]
fn client_incompatible_handshake_is_reported() {
    match handshake(Response::Incompatible {
        daemon_protocol_version: 99,
    }) {
        Err(ClientError::Incompatible { daemon_version }) => assert_eq!(daemon_version, 99),
        other => panic!("expected Incompatible, got {other:?}"),
    }
    match reauth_handshake(ReauthResponse::Incompatible {
        daemon_protocol_version: 99,
    }) {
        Err(ClientError::Incompatible { daemon_version }) => assert_eq!(daemon_version, 99),
        other => panic!("expected Incompatible, got {other:?}"),
    }
}

#[test]
fn conversation_password_then_allow() {
    assert_eq!(
        recv_step(ReauthResponse::Prompt(AuthPrompt::Question {
            text: "Password:".to_string(),
            secret: true,
        }))
        .unwrap(),
        ReauthStep::Question {
            text: "Password:".to_string(),
            secret: true
        }
    );
    assert_eq!(recv_step(ReauthResponse::Allow).unwrap(), ReauthStep::Allow);
}

#[test]
fn deny_maps_to_deny_and_the_client_can_begin_again() {
    for _ in 0..2 {
        assert_eq!(
            recv_step(ReauthResponse::Deny {
                reason: "Authentication failed".to_string(),
            })
            .unwrap(),
            ReauthStep::Deny("Authentication failed".to_string())
        );
    }
}

#[test]
fn info_and_error_prompts_are_relayed() {
    assert_eq!(
        recv_auth(Response::Auth(AuthPrompt::Info {
            text: "Please touch the device".to_string(),
        })),
        Ok(AuthStep::Info("Please touch the device".to_string()))
    );
    assert_eq!(
        recv_step(ReauthResponse::Prompt(AuthPrompt::Error {
            text: "bad pin".to_string(),
        })),
        Ok(ReauthStep::Error("bad pin".to_string()))
    );
    assert_eq!(
        recv_auth(Response::AuthFailure {
            reason: "Authentication failed".to_string(),
        }),
        Ok(AuthStep::Failure("Authentication failed".to_string()))
    );
}

#[test]
fn a_reply_out_of_place_is_unexpected() {
    assert_eq!(
        handshake(Response::Started),
        Err(ClientError::Unexpected(Response::Started))
    );
    assert_eq!(
        list_sessions(Response::AuthSuccess),
        Err(ClientError::Unexpected(Response::AuthSuccess))
    );
    assert_eq!(
        recv_auth(Response::Started),
        Err(ClientError::Unexpected(Response::Started))
    );
    assert_eq!(
        start(Response::AuthSuccess),
        Err(ClientError::Unexpected(Response::AuthSuccess))
    );
    assert_eq!(
        recv_step(ReauthResponse::Welcome { protocol_version: 1 }),
        Err(ClientError::UnexpectedReauth(ReauthResponse::Welcome {
            protocol_version: 1
        }))
    );
    assert_eq!(
        reauth_handshake(ReauthResponse::Allow),
        Err(ClientError::UnexpectedReauth(ReauthResponse::Allow))
    );
}

#[test]
fn power_refusal_is_reported() {
    assert_eq!(
        power(Response::Error {
            message: "not yet".to_string()
        }),
        Ok(Some("not yet".to_string()))
    );
    assert_eq!(
        power(Response::Started),
        Err(ClientError::Unexpected(Response::Started))
    );
}

#[test]
fn the_first_request_is_hello() {
    assert_eq!(hello(3), Request::Hello { protocol_version: 3 });
    assert_eq!(reauth_hello(3), ReauthRequest::Hello { protocol_version: 3 });
    assert_eq!(begin(), ReauthRequest::Begin);
}

#[test]
fn begin_carries_no_identity_on_the_wire() {
    assert_eq!(begin(), ReauthRequest::Begin);
    assert_eq!(format!("{:?}", begin()), "Begin");
}
