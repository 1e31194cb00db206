//! Exercises of the request parser and the response rendering.

use piv_agreement::command::{parse_request, ParseError, SlotId};
use piv_agreement::frame::{decode_frame_len, encode_frame};
use piv_agreement::response::{error_response, provider_error_response, success_response};

#[test]
fn valid_request_parses_slot_and_point() {
    let text = format!("calculate_agreement R2 02{}", "ab".repeat(32)).into_bytes();
    let (slot, point) = parse_request(&text).expect("a valid request must parse");
    assert_eq!(slot, SlotId::R2);
    assert_eq!(point, vec![0xabu8; 32]);
}

#[test]
fn tag_byte_is_dropped_from_decoded_key() {
    let key_hex = format!("03{}{}", "57".repeat(16), "a9".repeat(16));
    let text = format!("calculate_agreement R1 {}", key_hex).into_bytes();
    let (slot, point) = parse_request(&text).expect("a valid request must parse");
    assert_eq!(slot, SlotId::R1);
    let mut expected = vec![0x57u8; 16];
    expected.extend_from_slice(&[0xa9u8; 16]);
    assert_eq!(point, expected);
}

#[test]
fn trailing_space_after_key_is_accepted() {
    let text = format!("calculate_agreement R1 02{} ", "11".repeat(32)).into_bytes();
    let (slot, point) = parse_request(&text).expect("a trailing space leaves the body intact");
    assert_eq!(slot, SlotId::R1);
    assert_eq!(point, vec![0x11u8; 32]);
}

#[test]
fn request_without_space_is_missing_body() {
    assert_eq!(
        parse_request(b"calculate_agreement"),
        Err(ParseError::MissingBody)
    );
}

#[test]
fn unknown_command_is_rejected() {
    assert_eq!(
        parse_request(b"sign_message R1 0211"),
        Err(ParseError::UnknownCommand)
    );
}

#[test]
fn body_without_space_is_missing_slot_id() {
    assert_eq!(
        parse_request(b"calculate_agreement R1"),
        Err(ParseError::MissingSlotId)
    );
}

#[test]
fn empty_rest_is_missing_peer_key() {
    assert_eq!(
        parse_request(b"calculate_agreement R1 "),
        Err(ParseError::MissingPeerKey)
    );
}

#[test]
fn trailing_data_is_rejected() {
    let text = format!("calculate_agreement R1 02{} junk", "11".repeat(32)).into_bytes();
    assert_eq!(parse_request(&text), Err(ParseError::TrailingData));
}

#[test]
fn invalid_slot_is_rejected() {
    let text = format!("calculate_agreement R3 02{}", "11".repeat(32)).into_bytes();
    assert_eq!(parse_request(&text), Err(ParseError::InvalidSlotId));
}

#[test]
fn lowercase_slot_is_rejected() {
    let text = format!("calculate_agreement r1 02{}", "11".repeat(32)).into_bytes();
    assert_eq!(parse_request(&text), Err(ParseError::InvalidSlotId));
}

#[test]
fn non_hex_key_is_rejected() {
    let text = format!("calculate_agreement R1 zz{}", "11".repeat(32)).into_bytes();
    assert_eq!(parse_request(&text), Err(ParseError::InvalidPeerKeyHex));
}

#[test]
fn odd_length_key_is_rejected_as_hex() {
    assert_eq!(
        parse_request(b"calculate_agreement R1 021"),
        Err(ParseError::InvalidPeerKeyHex)
    );
}

#[test]
fn short_key_is_rejected_by_length() {
    assert_eq!(
        parse_request(b"calculate_agreement R1 0211"),
        Err(ParseError::InvalidPeerKeyLength)
    );
}

#[test]
fn long_key_is_rejected_by_length() {
    let text = format!("calculate_agreement R1 02{}", "11".repeat(33)).into_bytes();
    assert_eq!(parse_request(&text), Err(ParseError::InvalidPeerKeyLength));
}

#[test]
fn uppercase_hex_key_is_accepted() {
    let text = format!("calculate_agreement R1 02{}", "AB".repeat(32)).into_bytes();
    let (_, point) = parse_request(&text).expect("uppercase hex digits are valid");
    assert_eq!(point, vec![0xabu8; 32]);
}

#[test]
fn error_response_carries_message() {
    assert_eq!(
        error_response(ParseError::InvalidSlotId),
        b"error invalid slot id".to_vec()
    );
    assert_eq!(
        error_response(ParseError::MissingBody),
        b"error missing command body".to_vec()
    );
    assert_eq!(
        error_response(ParseError::InvalidPeerKeyLength),
        b"error invalid peer key length: expected 33 bytes".to_vec()
    );
}

#[test]
fn success_response_is_lowercase_hex() {
    assert_eq!(
        success_response(&[0x01, 0xab, 0xff]),
        b"success 01abff".to_vec()
    );
}

#[test]
fn provider_error_response_carries_cause() {
    assert_eq!(
        provider_error_response(b"no token"),
        b"error hardware failed to calculate agreement: no token".to_vec()
    );
}

#[test]
fn frame_encodes_length_prefix_little_endian() {
    assert_eq!(
        encode_frame(&vec![97, 98, 99]),
        vec![3, 0, 0, 0, 97, 98, 99]
    );
}

#[test]
fn frame_length_decodes_little_endian() {
    assert_eq!(decode_frame_len(&[0x10, 0x02, 0, 0]), 0x0210);
}
