//! The command protocol: a request is UTF-8 text of the form
//! `calculate_agreement <slot> <peer_public_key_hex>`; the response is either
//! `success <hex of the shared secret>` or `error <message>`.

use vstd::prelude::*;
use vstd::slice::{slice_subrange, slice_to_vec};
use vstd::utf8::valid_utf8;

use crate::hexcodec::{hex_decode, hex_encode, is_hex_seq, spec_hex_decode, spec_hex_encode};
use crate::token::{bytes_eq, find_space, first_space};

verus! {

/// The two addressable hardware key slots.
#[derive(Clone, Copy, PartialEq, Eq, Structural, Debug)]
pub enum SlotId {
    R1,
    R2,
}

/// Why a request was rejected before any hardware call was made.
#[derive(Clone, Copy, PartialEq, Eq, Structural, Debug)]
pub enum ParseError {
    /// The request holds no space, so no command body follows the code.
    MissingBody,
    /// The command code is not `calculate_agreement`.
    UnknownCommand,
    /// The command body holds no space, so no slot token can be split off.
    MissingSlotId,
    /// Nothing follows the slot token.
    MissingPeerKey,
    /// A non-empty remainder follows the peer key token.
    TrailingData,
    /// The slot token is neither `R1` nor `R2`.
    InvalidSlotId,
    /// The peer key token is not a well-formed hexadecimal string.
    InvalidPeerKeyHex,
    /// The peer key decodes to a length other than 33 bytes.
    InvalidPeerKeyLength,
}

/// The bytes of the one defined command code, `calculate_agreement`.
pub open spec fn calculate_agreement_token() -> Seq<u8> {
    seq![
        99u8,
        97u8,
        108u8,
        99u8,
        117u8,
        108u8,
        97u8,
        116u8,
        101u8,
        95u8,
        97u8,
        103u8,
        114u8,
        101u8,
        101u8,
        109u8,
        101u8,
        110u8,
        116u8,
    ]
}

/// The bytes of the slot token `R1`.
pub open spec fn slot_token_r1() -> Seq<u8> {
    seq![82u8, 49u8]
}

/// The bytes of the slot token `R2`.
pub open spec fn slot_token_r2() -> Seq<u8> {
    seq![82u8, 50u8]
}

/// The slot a token names, if any.
pub open spec fn spec_slot_of(t: Seq<u8>) -> Option<SlotId> {
    if t == slot_token_r1() {
        Some(SlotId::R1)
    } else if t == slot_token_r2() {
        Some(SlotId::R2)
    } else {
        None
    }
}

/// Parses the command body `<slot> <peer_public_key_hex>`: the slot token runs
/// to the first space, the key token to the next space or the end, and nothing
/// may follow the key token. A valid key is 66 hexadecimal digits, that is 33
/// bytes, of which the leading tag byte is dropped; the remaining 32 bytes are
/// the curve point handed to the provider.
pub open spec fn spec_parse_body(body: Seq<u8>) -> Result<(SlotId, Seq<u8>), ParseError> {
    let i = first_space(body);
    if i < 0 {
        Err(ParseError::MissingSlotId)
    } else {
        let slot_tok = body.take(i);
        let rest = body.skip(i + 1);
        if rest.len() == 0 {
            Err(ParseError::MissingPeerKey)
        } else {
            let j = first_space(rest);
            let key_tok = if j < 0 {
                rest
            } else {
                rest.take(j)
            };
            let trailing = if j < 0 {
                Seq::<u8>::empty()
            } else {
                rest.skip(j + 1)
            };
            if trailing.len() != 0 {
                Err(ParseError::TrailingData)
            } else if spec_slot_of(slot_tok) is None {
                Err(ParseError::InvalidSlotId)
            } else if !is_hex_seq(key_tok) {
                Err(ParseError::InvalidPeerKeyHex)
            } else if spec_hex_decode(key_tok).len() != 33 {
                Err(ParseError::InvalidPeerKeyLength)
            } else {
                Ok((spec_slot_of(slot_tok).unwrap(), spec_hex_decode(key_tok).skip(1)))
            }
        }
    }
}

/// Parses a whole request: the command code runs to the first space, and only
/// `calculate_agreement` is defined; its body follows after that space.
pub open spec fn spec_parse_request(text: Seq<u8>) -> Result<(SlotId, Seq<u8>), ParseError> {
    let i = first_space(text);
    if i < 0 {
        Err(ParseError::MissingBody)
    } else if text.take(i) != calculate_agreement_token() {
        Err(ParseError::UnknownCommand)
    } else {
        spec_parse_body(text.skip(i + 1))
    }
}

/// Parses the command body into the slot and the 32-byte peer curve point.
pub fn parse_agreement_body(body: &[u8]) -> (r: Result<(SlotId, Vec<u8>), ParseError>)
    ensures
        match spec_parse_body(body@) {
            Ok((slot, point)) => r matches Ok(p) && p.0 == slot && p.1@ == point,
            Err(e) => r matches Err(e2) && e2 == e,
        },
{
    let i = match find_space(body) {
        Some(i) => i,
        None => {
            return Err(ParseError::MissingSlotId);
        },
    };
    let n = body.len();
    let slot_tok = slice_subrange(body, 0, i);
    let rest = slice_subrange(body, i + 1, n);
    if rest.len() == 0 {
        return Err(ParseError::MissingPeerKey);
    }
    let key_tok = match find_space(rest) {
        Some(j) => {
            if rest.len() - (j + 1) != 0 {
                return Err(ParseError::TrailingData);
            }
            slice_subrange(rest, 0, j)
        },
        None => rest,
    };
    let r1: [u8; 2] = [82u8, 49u8];
    let r2: [u8; 2] = [82u8, 50u8];
    proof {
        assert(r1@ =~= slot_token_r1());
        assert(r2@ =~= slot_token_r2());
    }
    let slot = if bytes_eq(slot_tok, r1.as_slice()) {
        SlotId::R1
    } else if bytes_eq(slot_tok, r2.as_slice()) {
        SlotId::R2
    } else {
        return Err(ParseError::InvalidSlotId);
    };
    let decoded = match hex_decode(key_tok) {
        Ok(d) => d,
        Err(_) => {
            return Err(ParseError::InvalidPeerKeyHex);
        },
    };
    if decoded.len() != 33 {
        return Err(ParseError::InvalidPeerKeyLength);
    }
    let point = slice_to_vec(slice_subrange(decoded.as_slice(), 1, 33));
    proof {
        assert(point@ =~= spec_hex_decode(key_tok@).skip(1));
    }
    Ok((slot, point))
}

/// Parses a whole request into the slot and the 32-byte peer curve point.
pub fn parse_request(text: &[u8]) -> (r: Result<(SlotId, Vec<u8>), ParseError>)
    ensures
        match spec_parse_request(text@) {
            Ok((slot, point)) => r matches Ok(p) && p.0 == slot && p.1@ == point,
            Err(e) => r matches Err(e2) && e2 == e,
        },
{
    let i = match find_space(text) {
        Some(i) => i,
        None => {
            return Err(ParseError::MissingBody);
        },
    };
    let code = slice_subrange(text, 0, i);
    let expected: [u8; 19] = [
        99u8,
        97u8,
        108u8,
        99u8,
        117u8,
        108u8,
        97u8,
        116u8,
        101u8,
        95u8,
        97u8,
        103u8,
        114u8,
        101u8,
        101u8,
        109u8,
        101u8,
        110u8,
        116u8,
    ];
    proof {
        assert(expected@ =~= calculate_agreement_token());
    }
    if !bytes_eq(code, expected.as_slice()) {
        return Err(ParseError::UnknownCommand);
    }
    let n = text.len();
    let body = slice_subrange(text, i + 1, n);
    parse_agreement_body(body)
}

} // verus!
