//! The connection handler's state machine. One accepted connection serves
//! exactly one request-response exchange: read a 4-byte length prefix, read
//! that many payload bytes, parse, have the provider compute the agreement,
//! write one framed response, close. Every failure path closes the connection;
//! a malformed frame or undecodable payload closes it without a response.
//!
//! The surrounding process performs the socket reads and writes and the
//! hardware call; it feeds each outcome back as a [`ConnEvent`] and performs
//! the [`ConnAction`] the step function decides on.

use vstd::bytes::spec_u32_from_le_bytes;
use vstd::prelude::*;
use vstd::utf8::valid_utf8;

use crate::command::{parse_request, spec_parse_request, SlotId};
use crate::frame::{decode_frame_len, encode_frame, spec_frame, RECV_BUFFER_CAPACITY};
use crate::response::{
    error_response, lemma_error_response_len, provider_error_response, spec_error_response,
    spec_provider_error_response, spec_success_response, success_response,
};

verus! {

/// The largest shared secret whose success response still fits one frame.
pub const MAX_SECRET_LEN: usize = 2147483643;

/// The largest provider failure message whose error response still fits one
/// frame.
pub const MAX_CAUSE_LEN: u64 = 4294967249;

/// Where one connection stands in its single exchange.
#[derive(Clone, Copy, PartialEq, Eq, Structural, Debug)]
pub enum ConnState {
    /// Nothing read yet: the 4-byte length prefix is owed.
    AwaitPrefix,
    /// The prefix declared this many payload bytes, which are owed.
    AwaitPayload { declared: u32 },
    /// The request parsed; the provider's outcome is owed.
    AwaitProvider,
    /// The framed response is being written.
    AwaitWrite,
    /// The exchange is over: the connection is released.
    Closed,
}

/// What the outside world reports back to the state machine.
#[derive(PartialEq, Eq, Debug)]
pub enum ConnEvent {
    /// The length prefix was read; a full read hands over exactly 4 bytes.
    PrefixRead(Vec<u8>),
    /// A read failed or the stream ended early.
    ReadFailed,
    /// The declared number of payload bytes was read.
    PayloadRead(Vec<u8>),
    /// The provider returned the shared secret, or failed with a message.
    ProviderDone(Result<Vec<u8>, Vec<u8>>),
    /// The framed response was written in full.
    Written,
    /// Writing the response failed.
    WriteFailed,
}

/// What the state machine asks the outside world to do next.
#[derive(PartialEq, Eq, Debug)]
pub enum ConnAction {
    /// Read exactly this many payload bytes.
    ReadPayload(u32),
    /// Ask the provider for the agreement with this slot and 32-byte point.
    CallProvider(SlotId, Vec<u8>),
    /// Write these bytes, a complete frame, then report back.
    WriteFrame(Vec<u8>),
    /// Release the connection; no further read or write.
    Close,
}

/// The action at specification level, over byte sequences.
pub enum SpecAction {
    ReadPayload(int),
    CallProvider(SlotId, Seq<u8>),
    WriteFrame(Seq<u8>),
    Close,
}

/// The transition relation of one connection: from a state and an event to
/// the next state and the action owed.
pub open spec fn spec_step(s: ConnState, e: ConnEvent) -> (ConnState, SpecAction) {
    match (s, e) {
        (ConnState::AwaitPrefix, ConnEvent::PrefixRead(p)) => {
            if p@.len() == 4 && spec_u32_from_le_bytes(p@) <= RECV_BUFFER_CAPACITY {
                let n = spec_u32_from_le_bytes(p@);
                (ConnState::AwaitPayload { declared: n }, SpecAction::ReadPayload(n as int))
            } else {
                (ConnState::Closed, SpecAction::Close)
            }
        },
        (ConnState::AwaitPayload { .. }, ConnEvent::PayloadRead(b)) => {
            if !valid_utf8(b@) {
                (ConnState::Closed, SpecAction::Close)
            } else {
                match spec_parse_request(b@) {
                    Ok((slot, point)) => (
                        ConnState::AwaitProvider,
                        SpecAction::CallProvider(slot, point),
                    ),
                    Err(e) => (
                        ConnState::AwaitWrite,
                        SpecAction::WriteFrame(spec_frame(spec_error_response(e))),
                    ),
                }
            }
        },
        (ConnState::AwaitProvider, ConnEvent::ProviderDone(res)) => match res {
            Ok(secret) => {
                if secret@.len() <= MAX_SECRET_LEN {
                    (
                        ConnState::AwaitWrite,
                        SpecAction::WriteFrame(spec_frame(spec_success_response(secret@))),
                    )
                } else {
                    (ConnState::Closed, SpecAction::Close)
                }
            },
            Err(cause) => {
                if cause@.len() <= MAX_CAUSE_LEN {
                    (
                        ConnState::AwaitWrite,
                        SpecAction::WriteFrame(spec_frame(spec_provider_error_response(cause@))),
                    )
                } else {
                    (ConnState::Closed, SpecAction::Close)
                }
            },
        },
        _ => (ConnState::Closed, SpecAction::Close),
    }
}

/// The executable action carries the same data as the specification action.
pub open spec fn action_matches(a: ConnAction, sa: SpecAction) -> bool {
    match (a, sa) {
        (ConnAction::ReadPayload(n), SpecAction::ReadPayload(m)) => n == m,
        (ConnAction::CallProvider(s1, p1), SpecAction::CallProvider(s2, p2)) => s1 == s2 && p1@
            == p2,
        (ConnAction::WriteFrame(f), SpecAction::WriteFrame(g)) => f@ == g,
        (ConnAction::Close, SpecAction::Close) => true,
        _ => false,
    }
}

/// Drives one connection one step: decides the next state and the action owed
/// for the event that arrived in the given state.
pub fn conn_step(state: ConnState, event: ConnEvent) -> (r: (ConnState, ConnAction))
    ensures
        r.0 == spec_step(state, event).0,
        action_matches(r.1, spec_step(state, event).1),
{
    match (state, event) {
        (ConnState::AwaitPrefix, ConnEvent::PrefixRead(p)) => {
            if p.len() == 4 {
                let n = decode_frame_len(p.as_slice());
                if n <= RECV_BUFFER_CAPACITY {
                    (ConnState::AwaitPayload { declared: n }, ConnAction::ReadPayload(n))
                } else {
                    (ConnState::Closed, ConnAction::Close)
                }
            } else {
                (ConnState::Closed, ConnAction::Close)
            }
        },
        (ConnState::AwaitPayload { .. }, ConnEvent::PayloadRead(b)) => {
            if !utf8_valid(b.as_slice()) {
                (ConnState::Closed, ConnAction::Close)
            } else {
                match parse_request(b.as_slice()) {
                    Ok((slot, point)) => (
                        ConnState::AwaitProvider,
                        ConnAction::CallProvider(slot, point),
                    ),
                    Err(e) => {
                        let resp = error_response(e);
                        proof {
                            lemma_error_response_len(e);
                        }
                        (ConnState::AwaitWrite, ConnAction::WriteFrame(encode_frame(&resp)))
                    },
                }
            }
        },
        (ConnState::AwaitProvider, ConnEvent::ProviderDone(res)) => match res {
            Ok(secret) => {
                if secret.len() <= MAX_SECRET_LEN {
                    let resp = success_response(secret.as_slice());
                    (ConnState::AwaitWrite, ConnAction::WriteFrame(encode_frame(&resp)))
                } else {
                    (ConnState::Closed, ConnAction::Close)
                }
            },
            Err(cause) => {
                if cause.len() as u64 <= MAX_CAUSE_LEN {
                    let resp = provider_error_response(cause.as_slice());
                    (ConnState::AwaitWrite, ConnAction::WriteFrame(encode_frame(&resp)))
                } else {
                    (ConnState::Closed, ConnAction::Close)
                }
            },
        },
        _ => (ConnState::Closed, ConnAction::Close),
    }
}

/// Relies on core::str::from_utf8: it succeeds exactly on the byte slices
/// that are valid UTF-8.
#[verifier::external_body]
pub(crate) fn utf8_valid(bytes: &[u8]) -> (r: bool)
    ensures
        r == valid_utf8(bytes@),
{
    match core::str::from_utf8(bytes) {
        Ok(_) => true,
        Err(_) => false,
    }
}

} // verus!
