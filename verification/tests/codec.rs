//! Byte-level tests of the builders, the decoder and the decimal rendering.

use anybuf::Anybuf;
use tokenfactory_core::codec::{
    decode_metadata_response, encode_msg_create_denom, encode_msg_mint,
    encode_query_denom_authority_metadata_request,
};
use tokenfactory_core::decimal::u128_to_dec_string;
use tokenfactory_core::error::ContractError;
use tokenfactory_core::msg::Coin;

#[test]
fn proper_initialization() {
    let v = encode_query_denom_authority_metadata_request(
        "factory/stars14hj2tavq8fpesdwxxcu44rty3hh90vhujrvcmstl4zr3txmfvw9srsl6sm/uusdc"
            .to_string(),
    );
    let _ = v;
}

#[test]
fn create_denom_exact_bytes() {
    let got = encode_msg_create_denom("osmo1abc".to_string(), "mytoken".to_string());
    let mut expected: Vec<u8> = vec![0x0a, 8];
    expected.extend_from_slice(b"osmo1abc");
    expected.push(0x12);
    expected.push(7);
    expected.extend_from_slice(b"mytoken");
    assert_eq!(got, expected);
}

#[test]
fn create_denom_matches_anybuf() {
    let got = encode_msg_create_denom("osmo1abc".to_string(), "mytoken".to_string());
    let reference = Anybuf::new()
        .append_string(1, "osmo1abc")
        .append_string(2, "mytoken")
        .into_vec();
    assert_eq!(got, reference);
}

#[test]
fn mint_exact_bytes() {
    let amount = Coin {
        denom: "factory/osmo1abc/mytoken".to_string(),
        amount: 500,
    };
    let got = encode_msg_mint("osmo1abc".to_string(), &amount, "osmo1xyz".to_string());
    let mut expected: Vec<u8> = vec![0x0a, 8];
    expected.extend_from_slice(b"osmo1abc");
    // nested coin: denom (24 bytes) and amount string "500"
    expected.push(0x12);
    expected.push(2 + 24 + 2 + 3);
    expected.push(0x0a);
    expected.push(24);
    expected.extend_from_slice(b"factory/osmo1abc/mytoken");
    expected.push(0x12);
    expected.push(3);
    expected.extend_from_slice(b"500");
    expected.push(0x1a);
    expected.push(8);
    expected.extend_from_slice(b"osmo1xyz");
    assert_eq!(got, expected);
}

#[test]
fn mint_matches_anybuf() {
    let amount = Coin {
        denom: "factory/osmo1abc/mytoken".to_string(),
        amount: 500,
    };
    let got = encode_msg_mint("osmo1abc".to_string(), &amount, "osmo1xyz".to_string());
    let coin = Anybuf::new()
        .append_string(1, "factory/osmo1abc/mytoken")
        .append_string(2, "500");
    let reference = Anybuf::new()
        .append_string(1, "osmo1abc")
        .append_message(2, &coin)
        .append_string(3, "osmo1xyz")
        .into_vec();
    assert_eq!(got, reference);
}

#[test]
fn query_request_exact_bytes() {
    let got = encode_query_denom_authority_metadata_request("factory/osmo1abc/mytoken".to_string());
    let mut expected: Vec<u8> = vec![0x0a, 24];
    expected.extend_from_slice(b"factory/osmo1abc/mytoken");
    assert_eq!(got, expected);
}

#[test]
fn long_subdenom_uses_two_byte_length() {
    // 150 bytes of payload force a two-byte varint length prefix.
    let long = "x".repeat(150);
    let got = encode_msg_create_denom("s".to_string(), long.clone());
    let reference = Anybuf::new()
        .append_string(1, "s")
        .append_string(2, &long)
        .into_vec();
    assert_eq!(got, reference);
    // field 2 header: key 0x12, then 150 = 0x96 0x01 in varint
    assert_eq!(&got[3..6], &[0x12, 0x96, 0x01]);
}

#[test]
fn high_tag_uses_two_byte_key() {
    // tag 16 no longer fits a one-byte key: 16 << 3 | 2 = 130 = 0x82 0x01
    let got = tokenfactory_core::wire::WireBuilder::new()
        .append_string(16, "hi")
        .into_vec();
    let reference = Anybuf::new().append_string(16, "hi").into_vec();
    assert_eq!(got, reference);
    assert_eq!(got, vec![0x82, 0x01, 0x02, b'h', b'i']);
}

#[test]
fn decode_empty_envelope_is_none() {
    let r = decode_metadata_response(&vec![]);
    assert_eq!(r, Ok(None));
}

#[test]
fn decode_admin_round_trip() {
    // envelope: field 1 = metadata record; record: field 1 = admin string
    let mut inner: Vec<u8> = vec![0x0a, 10];
    inner.extend_from_slice(b"osmo1admin");
    let mut envelope: Vec<u8> = vec![0x0a, inner.len() as u8];
    envelope.extend_from_slice(&inner);
    let r = decode_metadata_response(&envelope).unwrap().unwrap();
    assert_eq!(r.admin, "osmo1admin");
}

#[test]
fn decode_empty_record_is_empty_admin() {
    let r = decode_metadata_response(&vec![0x0a, 0x00]).unwrap().unwrap();
    assert_eq!(r.admin, "");
}

#[test]
fn decode_truncated_envelope_fails() {
    // claims five payload bytes but holds one
    let r = decode_metadata_response(&vec![0x0a, 0x05, 0x01]);
    assert_eq!(r, Err(ContractError::DecodeFailure));
}

#[test]
fn decode_wrong_tag_fails() {
    // field 2 instead of field 1 in the envelope
    let r = decode_metadata_response(&vec![0x12, 0x00]);
    assert_eq!(r, Err(ContractError::DecodeFailure));
}

#[test]
fn decode_trailing_bytes_fail() {
    let r = decode_metadata_response(&vec![0x0a, 0x00, 0x00]);
    assert_eq!(r, Err(ContractError::DecodeFailure));
}

#[test]
fn decode_non_utf8_admin_fails() {
    let envelope: Vec<u8> = vec![0x0a, 0x04, 0x0a, 0x02, 0xff, 0xfe];
    let r = decode_metadata_response(&envelope);
    assert_eq!(r, Err(ContractError::DecodeFailure));
}

#[test]
fn error_text() {
    assert_eq!(ContractError::Unauthorized.as_text(), "unauthorized");
    assert_eq!(ContractError::InvalidAddress.as_text(), "invalid address");
    assert_eq!(ContractError::DecodeFailure.as_text(), "decode failure");
}

#[test]
fn decimal_rendering() {
    assert_eq!(u128_to_dec_string(0), "0");
    assert_eq!(u128_to_dec_string(7), "7");
    assert_eq!(u128_to_dec_string(500), "500");
    assert_eq!(u128_to_dec_string(1_000_000), "1000000");
    assert_eq!(
        u128_to_dec_string(u128::MAX),
        "340282366920938463463374607431768211455"
    );
}
