//! The protocol's laws: what the parser, the responses and the connection
//! state machine together guarantee for whole classes of requests.

use vstd::prelude::*;
use vstd::utf8::{
    is_leading_byte_width_1, partial_valid_utf8, partial_valid_utf8_extend_ascii_block, valid_utf8,
};

use crate::command::{
    calculate_agreement_token, spec_parse_body, spec_parse_request, spec_slot_of, ParseError,
    SlotId,
};
use crate::conn::{spec_step, ConnEvent, ConnState, SpecAction};
use crate::frame::spec_frame;
use crate::hexcodec::{is_hex_digit, is_hex_seq, spec_hex_decode, spec_hex_encode};
use crate::response::{
    spec_error_response, spec_success_response, success_prefix,
};
use crate::token::{first_space, lemma_first_space_at, lemma_first_space_none, SPACE};

verus! {

/// A byte string of ASCII bytes alone is valid UTF-8.
pub proof fn lemma_ascii_valid_utf8(s: Seq<u8>)
    requires
        forall|i: int| 0 <= i < s.len() ==> s[i] < 128,
    ensures
        valid_utf8(s),
{
    assert(s.subrange(0, 0) =~= Seq::<u8>::empty());
    assert(partial_valid_utf8(s, 0));
    assert(forall|i: int| 0 <= i < s.len() ==> is_leading_byte_width_1(#[trigger] s[i]));
    partial_valid_utf8_extend_ascii_block(s, 0, s.len() as int);
    assert(s.subrange(0, s.len() as int) =~= s);
}

/// Prefixing a body with the `calculate_agreement` code and a space parses the
/// request into exactly that body's parse.
pub proof fn lemma_request_splits(body: Seq<u8>)
    ensures
        spec_parse_request(calculate_agreement_token() + seq![SPACE] + body) == spec_parse_body(
            body,
        ),
{
    let cmd = calculate_agreement_token();
    let text = cmd + seq![SPACE] + body;
    assert(forall|j: int| 0 <= j < 19 ==> cmd[j] != SPACE);
    assert(forall|j: int| 0 <= j < 19 ==> text[j] == cmd[j]);
    assert(text[19] == SPACE);
    lemma_first_space_at(text, 19);
    assert(text.take(19) =~= cmd);
    assert(text.skip(20) =~= body);
}

/// A body made of a space-free slot token, a space, and a remainder splits at
/// that space.
pub proof fn lemma_body_tokens(slot_tok: Seq<u8>, rest: Seq<u8>)
    requires
        forall|j: int| 0 <= j < slot_tok.len() ==> slot_tok[j] != SPACE,
    ensures
        first_space(slot_tok + seq![SPACE] + rest) == slot_tok.len(),
        (slot_tok + seq![SPACE] + rest).take(slot_tok.len() as int) == slot_tok,
        (slot_tok + seq![SPACE] + rest).skip(slot_tok.len() as int + 1) == rest,
{
    let body = slot_tok + seq![SPACE] + rest;
    assert(forall|j: int| 0 <= j < slot_tok.len() ==> body[j] == slot_tok[j]);
    assert(body[slot_tok.len() as int] == SPACE);
    lemma_first_space_at(body, slot_tok.len() as int);
    assert(body.take(slot_tok.len() as int) =~= slot_tok);
    assert(body.skip(slot_tok.len() as int + 1) =~= rest);
}

/// A body of two space-free tokens, the second non-empty, is validated in
/// order: slot id, then key hex, then key length.
pub proof fn lemma_two_token_body(slot_tok: Seq<u8>, key_tok: Seq<u8>)
    requires
        forall|j: int| 0 <= j < slot_tok.len() ==> slot_tok[j] != SPACE,
        forall|j: int| 0 <= j < key_tok.len() ==> key_tok[j] != SPACE,
        key_tok.len() > 0,
    ensures
        spec_parse_body(slot_tok + seq![SPACE] + key_tok) == (if spec_slot_of(slot_tok) is None {
            Err::<(SlotId, Seq<u8>), ParseError>(ParseError::InvalidSlotId)
        } else if !is_hex_seq(key_tok) {
            Err(ParseError::InvalidPeerKeyHex)
        } else if spec_hex_decode(key_tok).len() != 33 {
            Err(ParseError::InvalidPeerKeyLength)
        } else {
            Ok((spec_slot_of(slot_tok).unwrap(), spec_hex_decode(key_tok).skip(1)))
        }),
{
    lemma_body_tokens(slot_tok, key_tok);
    lemma_first_space_none(key_tok);
}

/// A valid slot token holds no space.
pub proof fn lemma_slot_token_space_free(slot_tok: Seq<u8>)
    requires
        spec_slot_of(slot_tok) is Some,
    ensures
        forall|j: int| 0 <= j < slot_tok.len() ==> slot_tok[j] != SPACE,
        forall|j: int| 0 <= j < slot_tok.len() ==> slot_tok[j] < 128,
{
}

/// A hexadecimal token holds no space, and only ASCII bytes.
pub proof fn lemma_hex_token_ascii(key_tok: Seq<u8>)
    requires
        is_hex_seq(key_tok),
    ensures
        forall|j: int| 0 <= j < key_tok.len() ==> key_tok[j] != SPACE,
        forall|j: int| 0 <= j < key_tok.len() ==> key_tok[j] < 128,
{
    assert(forall|j: int| 0 <= j < key_tok.len() ==> is_hex_digit(#[trigger] key_tok[j]));
}

/// A well-formed request — the `calculate_agreement` code, a valid slot token
/// and 66 hexadecimal digits — is valid text; it parses to exactly one
/// provider call carrying the slot and the last 32 of the 33 decoded key
/// bytes; and once the provider returns a 32-byte secret, the one response
/// written is `success ` followed by 64 hexadecimal digits.
pub proof fn lemma_valid_request_agreement(
    payload: Vec<u8>,
    slot_tok: Seq<u8>,
    key_tok: Seq<u8>,
    declared: u32,
    secret: Vec<u8>,
)
    requires
        payload@ == calculate_agreement_token() + seq![SPACE] + slot_tok + seq![SPACE] + key_tok,
        spec_slot_of(slot_tok) is Some,
        is_hex_seq(key_tok),
        key_tok.len() == 66,
        secret@.len() == 32,
    ensures
        valid_utf8(payload@),
        spec_parse_request(payload@) == Ok::<(SlotId, Seq<u8>), ParseError>(
            (spec_slot_of(slot_tok).unwrap(), spec_hex_decode(key_tok).skip(1)),
        ),
        spec_hex_decode(key_tok).skip(1).len() == 32,
        spec_step(ConnState::AwaitPayload { declared }, ConnEvent::PayloadRead(payload)) == (
            ConnState::AwaitProvider,
            SpecAction::CallProvider(
                spec_slot_of(slot_tok).unwrap(),
                spec_hex_decode(key_tok).skip(1),
            ),
        ),
        spec_step(ConnState::AwaitProvider, ConnEvent::ProviderDone(Ok(secret))) == (
            ConnState::AwaitWrite,
            SpecAction::WriteFrame(spec_frame(spec_success_response(secret@))),
        ),
        spec_success_response(secret@).len() == 72,
        spec_success_response(secret@).take(8) == success_prefix(),
        forall|i: int| 8 <= i < 72 ==> is_hex_digit(#[trigger] spec_success_response(secret@)[i]),
{
    let cmd = calculate_agreement_token();
    let body = slot_tok + seq![SPACE] + key_tok;
    lemma_slot_token_space_free(slot_tok);
    lemma_hex_token_ascii(key_tok);
    assert(payload@ =~= cmd + seq![SPACE] + body);
    lemma_request_splits(body);
    lemma_two_token_body(slot_tok, key_tok);
    assert(forall|i: int| 0 <= i < payload@.len() ==> payload@[i] < 128);
    lemma_ascii_valid_utf8(payload@);
    assert(spec_success_response(secret@).take(8) =~= success_prefix());
    assert forall|i: int| 8 <= i < 72 implies is_hex_digit(
        #[trigger] spec_success_response(secret@)[i],
    ) by {
        let v = spec_hex_encode(secret@)[i - 8];
        assert(spec_success_response(secret@)[i] == v);
    }
}

/// A request whose hexadecimal key decodes to a length other than 33 bytes is
/// rejected before any provider call: for an empty key token the missing peer
/// key error, else the key length error.
pub proof fn lemma_key_length_rejected(slot_tok: Seq<u8>, key_tok: Seq<u8>)
    requires
        spec_slot_of(slot_tok) is Some,
        is_hex_seq(key_tok),
        key_tok.len() != 66,
    ensures
        spec_parse_request(calculate_agreement_token() + seq![SPACE] + slot_tok + seq![SPACE]
            + key_tok) == Err::<(SlotId, Seq<u8>), ParseError>(
            if key_tok.len() == 0 {
                ParseError::MissingPeerKey
            } else {
                ParseError::InvalidPeerKeyLength
            },
        ),
{
    let body = slot_tok + seq![SPACE] + key_tok;
    assert(calculate_agreement_token() + seq![SPACE] + slot_tok + seq![SPACE] + key_tok
        =~= calculate_agreement_token() + seq![SPACE] + body);
    lemma_slot_token_space_free(slot_tok);
    lemma_hex_token_ascii(key_tok);
    lemma_request_splits(body);
    if key_tok.len() == 0 {
        lemma_body_tokens(slot_tok, key_tok);
    } else {
        lemma_two_token_body(slot_tok, key_tok);
    }
}

/// A request whose key token is not well-formed hexadecimal is rejected
/// before any provider call with the key hex error.
pub proof fn lemma_key_hex_rejected(slot_tok: Seq<u8>, key_tok: Seq<u8>)
    requires
        spec_slot_of(slot_tok) is Some,
        !is_hex_seq(key_tok),
        key_tok.len() > 0,
        forall|j: int| 0 <= j < key_tok.len() ==> key_tok[j] != SPACE,
    ensures
        spec_parse_request(calculate_agreement_token() + seq![SPACE] + slot_tok + seq![SPACE]
            + key_tok) == Err::<(SlotId, Seq<u8>), ParseError>(ParseError::InvalidPeerKeyHex),
{
    lemma_slot_token_space_free(slot_tok);
    assert(calculate_agreement_token() + seq![SPACE] + slot_tok + seq![SPACE] + key_tok
        =~= calculate_agreement_token() + seq![SPACE] + (slot_tok + seq![SPACE] + key_tok));
    lemma_request_splits(slot_tok + seq![SPACE] + key_tok);
    lemma_two_token_body(slot_tok, key_tok);
}

/// A request whose slot token is neither `R1` nor `R2` is rejected before any
/// provider call with the invalid slot error.
pub proof fn lemma_slot_rejected(slot_tok: Seq<u8>, key_tok: Seq<u8>)
    requires
        spec_slot_of(slot_tok) is None,
        forall|j: int| 0 <= j < slot_tok.len() ==> slot_tok[j] != SPACE,
        forall|j: int| 0 <= j < key_tok.len() ==> key_tok[j] != SPACE,
        key_tok.len() > 0,
    ensures
        spec_parse_request(calculate_agreement_token() + seq![SPACE] + slot_tok + seq![SPACE]
            + key_tok) == Err::<(SlotId, Seq<u8>), ParseError>(ParseError::InvalidSlotId),
{
    assert(calculate_agreement_token() + seq![SPACE] + slot_tok + seq![SPACE] + key_tok
        =~= calculate_agreement_token() + seq![SPACE] + (slot_tok + seq![SPACE] + key_tok));
    lemma_request_splits(slot_tok + seq![SPACE] + key_tok);
    lemma_two_token_body(slot_tok, key_tok);
}

/// A command body with a non-empty trailing segment after the two expected
/// tokens is rejected before any provider call with the trailing data error,
/// whatever the tokens hold.
pub proof fn lemma_trailing_rejected(slot_tok: Seq<u8>, key_tok: Seq<u8>, trailing: Seq<u8>)
    requires
        forall|j: int| 0 <= j < slot_tok.len() ==> slot_tok[j] != SPACE,
        forall|j: int| 0 <= j < key_tok.len() ==> key_tok[j] != SPACE,
        trailing.len() > 0,
    ensures
        spec_parse_request(calculate_agreement_token() + seq![SPACE] + slot_tok + seq![SPACE]
            + key_tok + seq![SPACE] + trailing) == Err::<(SlotId, Seq<u8>), ParseError>(
            ParseError::TrailingData,
        ),
{
    let rest = key_tok + seq![SPACE] + trailing;
    let body = slot_tok + seq![SPACE] + rest;
    assert(calculate_agreement_token() + seq![SPACE] + slot_tok + seq![SPACE] + key_tok + seq![
        SPACE,
    ] + trailing =~= calculate_agreement_token() + seq![SPACE] + body);
    lemma_request_splits(body);
    lemma_body_tokens(slot_tok, rest);
    lemma_body_tokens(key_tok, trailing);
    assert(rest.len() > 0);
    assert(rest.skip(key_tok.len() as int + 1) == trailing);
}

/// Any rejected request is answered with exactly one framed error response —
/// the step writes a frame and asks for no provider call.
pub proof fn lemma_rejected_request_answered(payload: Vec<u8>, declared: u32, e: ParseError)
    requires
        valid_utf8(payload@),
        spec_parse_request(payload@) == Err::<(SlotId, Seq<u8>), ParseError>(e),
    ensures
        spec_step(ConnState::AwaitPayload { declared }, ConnEvent::PayloadRead(payload)) == (
            ConnState::AwaitWrite,
            SpecAction::WriteFrame(spec_frame(spec_error_response(e))),
        ),
{
}

/// A connection that declared a payload length but whose payload read fails
/// is closed with no response written.
pub proof fn lemma_short_payload_abandoned(declared: u32)
    ensures
        spec_step(ConnState::AwaitPayload { declared }, ConnEvent::ReadFailed) == (
            ConnState::Closed,
            SpecAction::Close,
        ),
{
}

/// After the one response is written — and equally when its write fails — the
/// connection is closed, and from the closed state every further event asks
/// only to close: no further frame is read from or written to the connection.
pub proof fn lemma_single_exchange_then_close(e: ConnEvent)
    ensures
        spec_step(ConnState::AwaitWrite, e) == (ConnState::Closed, SpecAction::Close),
        spec_step(ConnState::Closed, e) == (ConnState::Closed, SpecAction::Close),
{
}

/// At most one provider call is issued per connection: only a parsed request
/// asks for one, doing so moves the connection to awaiting the provider, and
/// while the provider is awaited no step asks for another.
pub proof fn lemma_one_provider_call_per_connection(s: ConnState, e: ConnEvent)
    ensures
        spec_step(s, e).1 is CallProvider ==> s is AwaitPayload && spec_step(s, e).0
            is AwaitProvider,
        spec_step(s, e).0 is AwaitProvider ==> s is AwaitPayload,
        s is AwaitProvider ==> !(spec_step(s, e).1 is CallProvider),
{
}

} // verus!
