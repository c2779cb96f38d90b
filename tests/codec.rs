use cyberdeck::codec::{decode, encode};
use cyberdeck::error::PeerError;

#[test]
fn encode_gives_standard_padded_base64() {
    assert_eq!(encode("hello"), "aGVsbG8=");
    assert_eq!(encode("hi"), "aGk=");
    assert_eq!(encode("abc"), "YWJj");
    assert_eq!(encode(""), "");
}

#[test]
fn encode_uses_utf8_bytes() {
    // "é" is the two bytes C3 A9.
    assert_eq!(encode("é"), "w6k=");
}

#[test]
fn decode_opens_known_tokens() {
    assert_eq!(decode("aGVsbG8="), Ok("hello".to_string()));
    assert_eq!(decode(""), Ok(String::new()));
}

#[test]
fn envelope_round_trip() {
    let texts = [
        "",
        "a",
        "ab",
        "abc",
        "{\"type\":\"offer\",\"sdp\":\"v=0\\r\\no=- 1 2 IN IP4 0.0.0.0\\r\\n\"}",
        "line one\nline two\r\n",
        "héllo wörld ✓ 🎉",
    ];
    for text in texts {
        assert_eq!(decode(&encode(text)), Ok(text.to_string()));
    }
}

#[test]
fn decode_rejects_invalid_base64() {
    assert_eq!(decode("!!!not-base64!!!"), Err(PeerError::BadEnvelope));
}

#[test]
fn decode_rejects_missing_padding() {
    assert_eq!(decode("aGk"), Err(PeerError::BadEnvelope));
}

#[test]
fn decode_rejects_non_utf8_payload() {
    // "//4=" is the bytes FF FE, which are not UTF-8.
    assert_eq!(decode("//4="), Err(PeerError::BadEnvelope));
}
