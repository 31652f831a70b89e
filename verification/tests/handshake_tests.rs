//! The sign-in handshake machine: the frames it emits, the happy path, and
//! failure propagation.

use honey_id_client::handshake::{sign_in, SignInState};
use honey_id_client::ids::AppPublicId;
use honey_id_client::{HoneyIdClient, HoneyIdConfig};

fn client() -> HoneyIdClient {
    HoneyIdClient::new(HoneyIdConfig {
        addr: "wss://api.honey.id:443/".to_string(),
        app_public_id: AppPublicId { text: "550e8400-e29b-41d4-a716-446655440000".to_string() },
        app_api_key: None,
        auth_api_key: None,
    })
}

#[test]
fn sign_in_walks_both_steps_to_a_token() {
    // Step 1 frame carries the configured app id and the username; the
    // expiresAt response advances to step 2; the accessToken response ends
    // the handshake authenticated.
    let c = client();
    let (flow, first) = sign_in(&c, "alice", "hunter2");
    assert_eq!(
        first,
        "{\"method\":12,\"params\":{\"appPublicId\":\"550e8400-e29b-41d4-a716-446655440000\",\"username\":\"alice\"}}"
    );
    let (flow, second) = flow.on_frame("{\"params\":{\"expiresAt\":1234}}");
    let second = second.expect("the machine sends the password next");
    assert_eq!(second, "{\"method\":13,\"params\":{\"password\":\"hunter2\"}}");
    let (flow, next) = flow.on_frame(
        "{\"params\":{\"accessToken\":\"550e8400-e29b-41d4-a716-446655440000\"}}",
    );
    assert!(next.is_none());
    match flow.state() {
        SignInState::Authenticated { access_token } => {
            assert_eq!(access_token, "550e8400-e29b-41d4-a716-446655440000");
        }
        _ => panic!("expected an authenticated handshake"),
    }
}

#[test]
fn first_failure_is_kept_verbatim() {
    // A protocol error at step 1 ends the handshake with that code and
    // message; no password frame goes out.
    let c = client();
    let (flow, _) = sign_in(&c, "alice", "hunter2");
    let (flow, next) = flow.on_frame("{\"code\":101606,\"params\":\"wrong password\"}");
    assert!(next.is_none());
    match flow.state() {
        SignInState::Failed { error } => {
            assert_eq!(error.code, 101606);
            assert_eq!(error.msg, "\"wrong password\"");
        }
        _ => panic!("expected a failed handshake"),
    }
}

#[test]
fn malformed_response_fails_with_the_raw_frame_kept() {
    let c = client();
    let (flow, _) = sign_in(&c, "alice", "hunter2");
    let (flow, next) = flow.on_frame("not json at all");
    assert!(next.is_none());
    match flow.state() {
        SignInState::Failed { error } => {
            assert!(error.msg.contains("not json at all"));
        }
        _ => panic!("expected a failed handshake"),
    }
}

#[test]
fn error_code_wider_than_u32_narrows_to_internal_error() {
    let c = client();
    let (flow, _) = sign_in(&c, "alice", "hunter2");
    let (flow, _) = flow.on_frame("{\"code\":4294967296,\"params\":\"m\"}");
    match flow.state() {
        SignInState::Failed { error } => {
            assert_eq!(error.code, honey_id_client::error::EnumErrorCode::InternalError.code());
        }
        _ => panic!("expected a failed handshake"),
    }
}

#[test]
fn terminal_machine_ignores_further_frames() {
    let c = client();
    let (flow, _) = sign_in(&c, "alice", "hunter2");
    let (flow, _) = flow.on_frame("{\"code\":100400,\"params\":\"bad\"}");
    let (flow, next) = flow.on_frame("{\"params\":{\"expiresAt\":1}}");
    assert!(next.is_none());
    assert!(matches!(flow.state(), SignInState::Failed { .. }));
}

#[test]
fn awaited_response_takes_precedence_over_an_error_code() {
    // When the params member parses as the awaited response, a code member
    // in the same frame does not fail the handshake.
    let c = client();
    let (flow, _) = sign_in(&c, "alice", "hunter2");
    let (flow, next) = flow.on_frame("{\"params\":{\"expiresAt\":1234},\"code\":3}");
    assert!(next.is_some());
    assert!(!matches!(flow.state(), SignInState::Failed { .. }));
}

#[test]
fn whitespace_in_an_inbound_frame_is_insignificant() {
    let c = client();
    let (flow, next) = sign_in(&c, "alice", "hunter2");
    let _ = next;
    let (flow, second) = flow.on_frame("{ \"params\": {\"expiresAt\": 1234} }");
    assert!(second.is_some());
    let (flow, _) = flow.on_frame("{ \"params\": { \"accessToken\" : \"tok\" } }");
    match flow.state() {
        SignInState::Authenticated { access_token } => assert_eq!(access_token, "tok"),
        _ => panic!("expected an authenticated handshake"),
    }
}

#[test]
fn error_members_in_either_order_fail_the_handshake_alike() {
    for frame in [
        "{\"code\":101606,\"params\":\"wrong password\"}",
        "{\"params\":\"wrong password\",\"code\":101606}",
    ] {
        let c = client();
        let (flow, _) = sign_in(&c, "alice", "hunter2");
        let (flow, next) = flow.on_frame(frame);
        assert!(next.is_none());
        match flow.state() {
            SignInState::Failed { error } => {
                assert_eq!(error.code, 101606, "frame: {frame}");
                assert_eq!(error.msg, "\"wrong password\"", "frame: {frame}");
            }
            _ => panic!("expected a failed handshake for {frame}"),
        }
    }
}
