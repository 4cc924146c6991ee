use tonlibjson_jsonrpc::codec::{
    base64_to_hex, bytes_to_hex_via_base64, canonical_base64, qualify_account, CodecError,
};

#[test]
fn hex_of_known_base64() {
    assert_eq!(
        base64_to_hex("aGVsbG8gd29ybGQ="),
        Ok("68656c6c6f20776f726c64".to_string())
    );
}

#[test]
fn hex_of_empty_base64_is_empty() {
    assert_eq!(base64_to_hex(""), Ok(String::new()));
}

#[test]
fn hex_is_lowercase_with_two_digits_per_byte() {
    assert_eq!(
        bytes_to_hex_via_base64(&vec![0x00, 0x0f, 0xa0, 0xff, 0x1b]),
        Ok("000fa0ff1b".to_string())
    );
    assert_eq!(bytes_to_hex_via_base64(&vec![1, 2, 3, 15, 16]), Ok("0102030f10".to_string()));
    assert_eq!(bytes_to_hex_via_base64(&Vec::new()), Ok(String::new()));
    assert_eq!(base64_to_hex("AA+g/xs="), Ok("000fa0ff1b".to_string()));
}

#[test]
fn invalid_base64_is_refused() {
    assert_eq!(base64_to_hex("not base64!"), Err(CodecError::InvalidBase64));
    assert_eq!(base64_to_hex("a"), Err(CodecError::InvalidBase64));
    assert_eq!(base64_to_hex("a==="), Err(CodecError::InvalidBase64));
    assert_eq!(base64_to_hex("AQ-_"), Err(CodecError::InvalidBase64));
}

#[test]
fn codec_round_trips_through_base64() {
    let samples: Vec<Vec<u8>> = vec![
        vec![],
        vec![0],
        vec![255, 254],
        vec![1, 2, 3],
        (0u8..=255).collect(),
        b"hello world".to_vec(),
    ];
    for bytes in samples {
        assert_eq!(bytes_to_hex_via_base64(&bytes), Ok(hex::encode(&bytes)));
        assert_eq!(base64_to_hex(&base64::encode(&bytes)), Ok(hex::encode(&bytes)));
    }
}

#[test]
fn canonical_base64_keeps_canonical_text() {
    assert_eq!(
        canonical_base64("aGVsbG8gd29ybGQ="),
        Ok("aGVsbG8gd29ybGQ=".to_string())
    );
    assert_eq!(canonical_base64("AQID"), Ok("AQID".to_string()));
}

#[test]
fn canonical_base64_restores_padding() {
    assert_eq!(canonical_base64("abc"), Ok("abc=".to_string()));
    assert_eq!(canonical_base64("/w"), Ok("/w==".to_string()));
}

#[test]
fn canonical_base64_refuses_other_text() {
    assert_eq!(canonical_base64("%%%"), Err(CodecError::InvalidBase64));
}

#[test]
fn account_is_qualified_by_workchain() {
    // A 32-byte identifier, as accounts are.
    let raw: Vec<u8> = (0u8..32).collect();
    let account = base64::encode(&raw);
    let expected = format!("-1:{}", hex::encode(&raw));
    assert_eq!(qualify_account(-1, &account), Ok(expected));
    assert_eq!(
        qualify_account(0, "AQID"),
        Ok("0:010203".to_string())
    );
    assert_eq!(
        qualify_account(i64::MIN, "/w=="),
        Ok("-9223372036854775808:ff".to_string())
    );
    assert_eq!(
        qualify_account(1234567890, ""),
        Ok("1234567890:".to_string())
    );
}

#[test]
fn account_that_is_not_base64_is_refused() {
    assert_eq!(qualify_account(0, "?"), Err(CodecError::InvalidBase64));
}

#[test]
fn codec_refusal_has_a_message() {
    assert_eq!(CodecError::InvalidBase64.message(), "identifier is not valid base64");
}
