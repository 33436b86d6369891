use file_storage::codec::{decode_payload, decode_then_encode, encode_payload, encode_then_decode};
use file_storage::error::StoreError;

#[test]
fn encode_produces_standard_base64() {
    assert_eq!(encode_payload(&b"hello".to_vec()), "aGVsbG8=");
    assert_eq!(encode_payload(&Vec::new()), "");
    assert_eq!(encode_payload(&b"A".to_vec()), "QQ==");
}

#[test]
fn encode_matches_the_base64_crate() {
    for input in [&b""[..], b"hello", b"\x00\xff\x10", b"longer input, three words"] {
        assert_eq!(encode_payload(&input.to_vec()), base64::encode(input));
    }
}

#[test]
fn decode_inverts_encode() {
    for input in [&b""[..], b"hello", b"\x00\xff\x10", b"\xde\xad\xbe\xef\x01"] {
        let text = encode_payload(&input.to_vec());
        assert_eq!(decode_payload(&text).unwrap(), input.to_vec());
    }
}

#[test]
fn encode_then_decode_is_identity() {
    let bytes = b"round trip payload \x00\x01\x02".to_vec();
    assert_eq!(encode_then_decode(&bytes), bytes);
    assert_eq!(encode_then_decode(&Vec::new()), Vec::<u8>::new());
}

#[test]
fn encode_inverts_decode_on_canonical_text() {
    for text in ["", "QQ==", "QkI=", "Q0ND", "aGVsbG8="] {
        assert_eq!(decode_then_encode(text), Some(text.to_string()));
    }
    // an unpadded spelling decodes, but re-encodes to its canonical form
    assert_eq!(decode_then_encode("QQ"), Some("QQ==".to_string()));
    assert_eq!(decode_then_encode("not-valid-base64!!"), None);
}

#[test]
fn decode_accepts_exact_values() {
    assert_eq!(decode_payload("aGVsbG8=").unwrap(), b"hello".to_vec());
    assert_eq!(decode_payload("").unwrap(), Vec::<u8>::new());
}

#[test]
fn decode_rejects_invalid_base64() {
    assert_eq!(decode_payload("not-valid-base64!!"), Err(StoreError::EncodingError));
    assert_eq!(decode_payload("a"), Err(StoreError::EncodingError));
    assert_eq!(decode_payload("%%%%"), Err(StoreError::EncodingError));
}
