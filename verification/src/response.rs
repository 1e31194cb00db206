//! Rendering the outcome of a request as a textual response payload:
//! `success <hex of the shared secret>` or `error <message>`.

use vstd::prelude::*;

use crate::command::ParseError;
use crate::hexcodec::{hex_encode, spec_hex_encode};

verus! {

/// The bytes of `error `, the prefix of every failure response.
pub open spec fn error_prefix() -> Seq<u8> {
    seq![101u8, 114u8, 114u8, 111u8, 114u8, 32u8]
}

/// The bytes of `success `, the prefix of every success response.
pub open spec fn success_prefix() -> Seq<u8> {
    seq![115u8, 117u8, 99u8, 99u8, 101u8, 115u8, 115u8, 32u8]
}

/// The message a rejected request is reported with.
pub open spec fn spec_message(e: ParseError) -> Seq<u8> {
    match e {
        ParseError::MissingBody => seq![
            109u8,
            105u8,
            115u8,
            115u8,
            105u8,
            110u8,
            103u8,
            32u8,
            99u8,
            111u8,
            109u8,
            109u8,
            97u8,
            110u8,
            100u8,
            32u8,
            98u8,
            111u8,
            100u8,
            121u8,
        ],
        ParseError::UnknownCommand => seq![
            117u8,
            110u8,
            107u8,
            110u8,
            111u8,
            119u8,
            110u8,
            32u8,
            99u8,
            111u8,
            109u8,
            109u8,
            97u8,
            110u8,
            100u8,
        ],
        ParseError::MissingSlotId => seq![
            109u8,
            105u8,
            115u8,
            115u8,
            105u8,
            110u8,
            103u8,
            32u8,
            115u8,
            108u8,
            111u8,
            116u8,
            32u8,
            105u8,
            100u8,
        ],
        ParseError::MissingPeerKey => seq![
            109u8,
            105u8,
            115u8,
            115u8,
            105u8,
            110u8,
            103u8,
            32u8,
            112u8,
            101u8,
            101u8,
            114u8,
            32u8,
            107u8,
            101u8,
            121u8,
        ],
        ParseError::TrailingData => seq![
            117u8,
            110u8,
            101u8,
            120u8,
            112u8,
            101u8,
            99u8,
            116u8,
            101u8,
            100u8,
            32u8,
            116u8,
            114u8,
            97u8,
            105u8,
            108u8,
            105u8,
            110u8,
            103u8,
            32u8,
            100u8,
            97u8,
            116u8,
            97u8,
        ],
        ParseError::InvalidSlotId => seq![
            105u8,
            110u8,
            118u8,
            97u8,
            108u8,
            105u8,
            100u8,
            32u8,
            115u8,
            108u8,
            111u8,
            116u8,
            32u8,
            105u8,
            100u8,
        ],
        ParseError::InvalidPeerKeyHex => seq![
            105u8,
            110u8,
            118u8,
            97u8,
            108u8,
            105u8,
            100u8,
            32u8,
            104u8,
            101u8,
            120u8,
            32u8,
            105u8,
            110u8,
            32u8,
            112u8,
            101u8,
            101u8,
            114u8,
            32u8,
            107u8,
            101u8,
            121u8,
        ],
        ParseError::InvalidPeerKeyLength => seq![
            105u8,
            110u8,
            118u8,
            97u8,
            108u8,
            105u8,
            100u8,
            32u8,
            112u8,
            101u8,
            101u8,
            114u8,
            32u8,
            107u8,
            101u8,
            121u8,
            32u8,
            108u8,
            101u8,
            110u8,
            103u8,
            116u8,
            104u8,
            58u8,
            32u8,
            101u8,
            120u8,
            112u8,
            101u8,
            99u8,
            116u8,
            101u8,
            100u8,
            32u8,
            51u8,
            51u8,
            32u8,
            98u8,
            121u8,
            116u8,
            101u8,
            115u8,
        ],
    }
}

/// The bytes of `hardware failed to calculate agreement: `, the message prefix
/// a provider failure is reported with.
pub open spec fn hardware_failed_message() -> Seq<u8> {
    seq![
        104u8,
        97u8,
        114u8,
        100u8,
        119u8,
        97u8,
        114u8,
        101u8,
        32u8,
        102u8,
        97u8,
        105u8,
        108u8,
        101u8,
        100u8,
        32u8,
        116u8,
        111u8,
        32u8,
        99u8,
        97u8,
        108u8,
        99u8,
        117u8,
        108u8,
        97u8,
        116u8,
        101u8,
        32u8,
        97u8,
        103u8,
        114u8,
        101u8,
        101u8,
        109u8,
        101u8,
        110u8,
        116u8,
        58u8,
        32u8,
    ]
}

/// The whole response payload for a rejected request.
pub open spec fn spec_error_response(e: ParseError) -> Seq<u8> {
    error_prefix() + spec_message(e)
}

/// The whole response payload for a successful agreement.
pub open spec fn spec_success_response(secret: Seq<u8>) -> Seq<u8> {
    success_prefix() + spec_hex_encode(secret)
}

/// The whole response payload for a provider failure with message `cause`.
pub open spec fn spec_provider_error_response(cause: Seq<u8>) -> Seq<u8> {
    error_prefix() + hardware_failed_message() + cause
}

/// Appends all of `src` to `dst`.
pub fn push_all(dst: &mut Vec<u8>, src: &[u8])
    ensures
        final(dst)@ == old(dst)@ + src@,
{
    let mut i: usize = 0;
    while i < src.len()
        invariant
            i <= src@.len(),
            dst@ == old(dst)@ + src@.subrange(0, i as int),
        decreases src@.len() - i,
    {
        dst.push(src[i]);
        i = i + 1;
        proof {
            assert(src@.subrange(0, i as int) == src@.subrange(0, i as int - 1).push(
                src@[i as int - 1],
            ));
        }
    }
    proof {
        assert(src@.subrange(0, src@.len() as int) == src@);
    }
}

/// Renders `error <message>` for a rejected request.
pub fn error_response(e: ParseError) -> (r: Vec<u8>)
    ensures
        r@ == spec_error_response(e),
{
    let mut v: Vec<u8> = Vec::new();
    let prefix: [u8; 6] = [101u8, 114u8, 114u8, 111u8, 114u8, 32u8];
    push_all(&mut v, prefix.as_slice());
    match e {
        ParseError::MissingBody => {
            let m: [u8; 20] = [
                109u8,
                105u8,
                115u8,
                115u8,
                105u8,
                110u8,
                103u8,
                32u8,
                99u8,
                111u8,
                109u8,
                109u8,
                97u8,
                110u8,
                100u8,
                32u8,
                98u8,
                111u8,
                100u8,
                121u8,
            ];
            push_all(&mut v, m.as_slice());
        },
        ParseError::UnknownCommand => {
            let m: [u8; 15] = [
                117u8,
                110u8,
                107u8,
                110u8,
                111u8,
                119u8,
                110u8,
                32u8,
                99u8,
                111u8,
                109u8,
                109u8,
                97u8,
                110u8,
                100u8,
            ];
            push_all(&mut v, m.as_slice());
        },
        ParseError::MissingSlotId => {
            let m: [u8; 15] = [
                109u8,
                105u8,
                115u8,
                115u8,
                105u8,
                110u8,
                103u8,
                32u8,
                115u8,
                108u8,
                111u8,
                116u8,
                32u8,
                105u8,
                100u8,
            ];
            push_all(&mut v, m.as_slice());
        },
        ParseError::MissingPeerKey => {
            let m: [u8; 16] = [
                109u8,
                105u8,
                115u8,
                115u8,
                105u8,
                110u8,
                103u8,
                32u8,
                112u8,
                101u8,
                101u8,
                114u8,
                32u8,
                107u8,
                101u8,
                121u8,
            ];
            push_all(&mut v, m.as_slice());
        },
        ParseError::TrailingData => {
            let m: [u8; 24] = [
                117u8,
                110u8,
                101u8,
                120u8,
                112u8,
                101u8,
                99u8,
                116u8,
                101u8,
                100u8,
                32u8,
                116u8,
                114u8,
                97u8,
                105u8,
                108u8,
                105u8,
                110u8,
                103u8,
                32u8,
                100u8,
                97u8,
                116u8,
                97u8,
            ];
            push_all(&mut v, m.as_slice());
        },
        ParseError::InvalidSlotId => {
            let m: [u8; 15] = [
                105u8,
                110u8,
                118u8,
                97u8,
                108u8,
                105u8,
                100u8,
                32u8,
                115u8,
                108u8,
                111u8,
                116u8,
                32u8,
                105u8,
                100u8,
            ];
            push_all(&mut v, m.as_slice());
        },
        ParseError::InvalidPeerKeyHex => {
            let m: [u8; 23] = [
                105u8,
                110u8,
                118u8,
                97u8,
                108u8,
                105u8,
                100u8,
                32u8,
                104u8,
                101u8,
                120u8,
                32u8,
                105u8,
                110u8,
                32u8,
                112u8,
                101u8,
                101u8,
                114u8,
                32u8,
                107u8,
                101u8,
                121u8,
            ];
            push_all(&mut v, m.as_slice());
        },
        ParseError::InvalidPeerKeyLength => {
            let m: [u8; 42] = [
                105u8,
                110u8,
                118u8,
                97u8,
                108u8,
                105u8,
                100u8,
                32u8,
                112u8,
                101u8,
                101u8,
                114u8,
                32u8,
                107u8,
                101u8,
                121u8,
                32u8,
                108u8,
                101u8,
                110u8,
                103u8,
                116u8,
                104u8,
                58u8,
                32u8,
                101u8,
                120u8,
                112u8,
                101u8,
                99u8,
                116u8,
                101u8,
                100u8,
                32u8,
                51u8,
                51u8,
                32u8,
                98u8,
                121u8,
                116u8,
                101u8,
                115u8,
            ];
            push_all(&mut v, m.as_slice());
        },
    }
    proof {
        assert(v@ =~= spec_error_response(e));
    }
    v
}

/// Renders `success <hex of secret>` for a computed agreement.
pub fn success_response(secret: &[u8]) -> (r: Vec<u8>)
    requires
        secret@.len() * 2 <= usize::MAX,
    ensures
        r@ == spec_success_response(secret@),
{
    let mut v: Vec<u8> = Vec::new();
    let prefix: [u8; 8] = [115u8, 117u8, 99u8, 99u8, 101u8, 115u8, 115u8, 32u8];
    push_all(&mut v, prefix.as_slice());
    let encoded = hex_encode(secret);
    push_all(&mut v, encoded.as_slice());
    proof {
        assert(v@ =~= spec_success_response(secret@));
    }
    v
}

/// Renders `error hardware failed to calculate agreement: <cause>` for a
/// provider failure.
pub fn provider_error_response(cause: &[u8]) -> (r: Vec<u8>)
    ensures
        r@ == spec_provider_error_response(cause@),
{
    let mut v: Vec<u8> = Vec::new();
    let prefix: [u8; 6] = [101u8, 114u8, 114u8, 111u8, 114u8, 32u8];
    push_all(&mut v, prefix.as_slice());
    let hw: [u8; 40] = [
        104u8,
        97u8,
        114u8,
        100u8,
        119u8,
        97u8,
        114u8,
        101u8,
        32u8,
        102u8,
        97u8,
        105u8,
        108u8,
        101u8,
        100u8,
        32u8,
        116u8,
        111u8,
        32u8,
        99u8,
        97u8,
        108u8,
        99u8,
        117u8,
        108u8,
        97u8,
        116u8,
        101u8,
        32u8,
        97u8,
        103u8,
        114u8,
        101u8,
        101u8,
        109u8,
        101u8,
        110u8,
        116u8,
        58u8,
        32u8,
    ];
    push_all(&mut v, hw.as_slice());
    push_all(&mut v, cause);
    proof {
        assert(v@ =~= spec_provider_error_response(cause@));
    }
    v
}

/// Every rejection message is short: the whole error response fits a frame.
pub proof fn lemma_error_response_len(e: ParseError)
    ensures
        spec_error_response(e).len() <= 48,
{
}

} // verus!
