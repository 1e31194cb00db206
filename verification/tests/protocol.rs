//! End-to-end exercises of the connection state machine: one framed request
//! in, one framed response out, then the connection closes.

use piv_agreement::command::SlotId;
use piv_agreement::conn::{conn_step, ConnAction, ConnEvent, ConnState};

fn valid_request_bytes() -> Vec<u8> {
    let key_hex = format!("02{}", "11".repeat(32));
    format!("calculate_agreement R1 {}", key_hex).into_bytes()
}

fn prefix_for(payload: &[u8]) -> Vec<u8> {
    (payload.len() as u32).to_le_bytes().to_vec()
}

/// Runs one whole exchange for a valid request and returns the framed
/// response written, with the provider answering 32 zero bytes.
fn run_valid_exchange() -> Vec<u8> {
    let payload = valid_request_bytes();

    let (state, action) = conn_step(
        ConnState::AwaitPrefix,
        ConnEvent::PrefixRead(prefix_for(&payload)),
    );
    assert_eq!(
        state,
        ConnState::AwaitPayload {
            declared: payload.len() as u32
        }
    );
    assert_eq!(action, ConnAction::ReadPayload(payload.len() as u32));

    let (state, action) = conn_step(state, ConnEvent::PayloadRead(payload));
    assert_eq!(state, ConnState::AwaitProvider);
    assert_eq!(action, ConnAction::CallProvider(SlotId::R1, vec![0x11u8; 32]));

    let (state, action) = conn_step(state, ConnEvent::ProviderDone(Ok(vec![0u8; 32])));
    assert_eq!(state, ConnState::AwaitWrite);
    let frame = match action {
        ConnAction::WriteFrame(frame) => frame,
        other => panic!("expected a framed response, got {:?}", other),
    };

    let (state, action) = conn_step(state, ConnEvent::Written);
    assert_eq!(state, ConnState::Closed);
    assert_eq!(action, ConnAction::Close);

    frame
}

#[test]
fn valid_request_returns_success_frame() {
    let frame = run_valid_exchange();
    let expected_payload = format!("success {}", "00".repeat(32)).into_bytes();
    let mut expected = (expected_payload.len() as u32).to_le_bytes().to_vec();
    expected.extend_from_slice(&expected_payload);
    assert_eq!(frame, expected);
    assert_eq!(frame.len(), 4 + 8 + 64);
}

#[test]
fn two_sequential_connections_both_succeed() {
    let first = run_valid_exchange();
    let second = run_valid_exchange();
    assert_eq!(first, second);
    let expected_payload = format!("success {}", "00".repeat(32)).into_bytes();
    assert_eq!(&first[4..], &expected_payload[..]);
}

#[test]
fn short_payload_closes_without_response() {
    let (state, action) = conn_step(
        ConnState::AwaitPayload { declared: 10 },
        ConnEvent::ReadFailed,
    );
    assert_eq!(state, ConnState::Closed);
    assert_eq!(action, ConnAction::Close);
}

#[test]
fn prefix_read_failure_closes_without_response() {
    let (state, action) = conn_step(ConnState::AwaitPrefix, ConnEvent::ReadFailed);
    assert_eq!(state, ConnState::Closed);
    assert_eq!(action, ConnAction::Close);
}

#[test]
fn connection_closed_after_write_failure() {
    let (state, action) = conn_step(ConnState::AwaitWrite, ConnEvent::WriteFailed);
    assert_eq!(state, ConnState::Closed);
    assert_eq!(action, ConnAction::Close);
}

#[test]
fn no_further_frames_after_close() {
    let (state, action) = conn_step(ConnState::Closed, ConnEvent::PrefixRead(vec![1, 0, 0, 0]));
    assert_eq!(state, ConnState::Closed);
    assert_eq!(action, ConnAction::Close);
    let (state, action) = conn_step(ConnState::Closed, ConnEvent::PayloadRead(b"x".to_vec()));
    assert_eq!(state, ConnState::Closed);
    assert_eq!(action, ConnAction::Close);
}

#[test]
fn oversized_declared_length_abandons_connection() {
    let (state, action) = conn_step(
        ConnState::AwaitPrefix,
        ConnEvent::PrefixRead(8193u32.to_le_bytes().to_vec()),
    );
    assert_eq!(state, ConnState::Closed);
    assert_eq!(action, ConnAction::Close);
}

#[test]
fn largest_declared_length_is_accepted() {
    let (state, action) = conn_step(
        ConnState::AwaitPrefix,
        ConnEvent::PrefixRead(8192u32.to_le_bytes().to_vec()),
    );
    assert_eq!(state, ConnState::AwaitPayload { declared: 8192 });
    assert_eq!(action, ConnAction::ReadPayload(8192));
}

#[test]
fn invalid_utf8_payload_abandons_connection() {
    let (state, action) = conn_step(
        ConnState::AwaitPayload { declared: 2 },
        ConnEvent::PayloadRead(vec![0xff, 0xfe]),
    );
    assert_eq!(state, ConnState::Closed);
    assert_eq!(action, ConnAction::Close);
}

#[test]
fn provider_failure_is_reported_in_response() {
    let (state, action) = conn_step(
        ConnState::AwaitProvider,
        ConnEvent::ProviderDone(Err(b"token removed".to_vec())),
    );
    assert_eq!(state, ConnState::AwaitWrite);
    let expected_payload =
        b"error hardware failed to calculate agreement: token removed".to_vec();
    let mut expected = (expected_payload.len() as u32).to_le_bytes().to_vec();
    expected.extend_from_slice(&expected_payload);
    assert_eq!(action, ConnAction::WriteFrame(expected));
}

#[test]
fn rejected_request_is_answered_then_closed() {
    let payload = b"calculate_agreement R7 1234".to_vec();
    let (state, action) = conn_step(
        ConnState::AwaitPayload {
            declared: payload.len() as u32,
        },
        ConnEvent::PayloadRead(payload),
    );
    assert_eq!(state, ConnState::AwaitWrite);
    let expected_payload = b"error invalid slot id".to_vec();
    let mut expected = (expected_payload.len() as u32).to_le_bytes().to_vec();
    expected.extend_from_slice(&expected_payload);
    assert_eq!(action, ConnAction::WriteFrame(expected));

    let (state, action) = conn_step(state, ConnEvent::Written);
    assert_eq!(state, ConnState::Closed);
    assert_eq!(action, ConnAction::Close);
}
