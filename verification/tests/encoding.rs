use veracruz_nitro::attestation::TabascoError;
use veracruz_nitro::encoding::{decode_request, encode_response};

#[test]
fn request_body_is_decoded() {
    assert_eq!(decode_request("aGVsbG8="), Ok(b"hello".to_vec()));
    assert_eq!(decode_request(""), Ok(Vec::new()));
}

#[test]
fn invalid_request_body_is_refused() {
    assert_eq!(decode_request("not base64!"), Err(TabascoError::Base64DecodeError));
    assert_eq!(decode_request("a"), Err(TabascoError::Base64DecodeError));
}

#[test]
fn response_is_encoded() {
    assert_eq!(encode_response(b"hello"), "aGVsbG8=");
    assert_eq!(encode_response(&[0xff, 0x00]), "/wA=");
}

#[test]
fn encoded_response_decodes_back() {
    let message: Vec<u8> = (0u8..=255).collect();
    let text = encode_response(&message);
    assert_eq!(decode_request(&text), Ok(message));
}
