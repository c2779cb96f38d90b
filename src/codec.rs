//! The signaling envelope: the UTF-8 bytes of a text, in standard base64.
use vstd::prelude::*;
use vstd::utf8::{decode_utf8, encode_utf8, valid_utf8};

use base64::engine::general_purpose::STANDARD;
use base64::Engine;

use crate::error::PeerError;

verus! {

broadcast use vstd::utf8::group_utf8_lib;

/// The standard base64 alphabet: the digit for each 6-bit value.
pub open spec fn base64_alphabet() -> Seq<char> {
    seq![
        'A', 'B', 'C', 'D', 'E', 'F', 'G', 'H', 'I', 'J', 'K', 'L', 'M',
        'N', 'O', 'P', 'Q', 'R', 'S', 'T', 'U', 'V', 'W', 'X', 'Y', 'Z',
        'a', 'b', 'c', 'd', 'e', 'f', 'g', 'h', 'i', 'j', 'k', 'l', 'm',
        'n', 'o', 'p', 'q', 'r', 's', 't', 'u', 'v', 'w', 'x', 'y', 'z',
        '0', '1', '2', '3', '4', '5', '6', '7', '8', '9', '+', '/',
    ]
}

/// The standard base64 text of a byte sequence: each group of three bytes
/// becomes four digits; a last group of one or two bytes is padded with `=`.
pub open spec fn base64_of(bytes: Seq<u8>) -> Seq<char>
    decreases bytes.len(),
{
    let a = base64_alphabet();
    if bytes.len() == 0 {
        seq![]
    } else if bytes.len() == 1 {
        let b0 = bytes[0] as int;
        seq![a[b0 / 4], a[(b0 % 4) * 16], '=', '=']
    } else if bytes.len() == 2 {
        let (b0, b1) = (bytes[0] as int, bytes[1] as int);
        seq![a[b0 / 4], a[(b0 % 4) * 16 + b1 / 16], a[(b1 % 16) * 4], '=']
    } else {
        let (b0, b1, b2) = (bytes[0] as int, bytes[1] as int, bytes[2] as int);
        seq![a[b0 / 4], a[(b0 % 4) * 16 + b1 / 16], a[(b1 % 16) * 4 + b2 / 64], a[b2 % 64]]
            + base64_of(bytes.subrange(3, bytes.len() as int))
    }
}

/// The envelope of a text: its UTF-8 bytes in standard base64.
pub open spec fn envelope(text: Seq<char>) -> Seq<char> {
    base64_of(encode_utf8(text))
}

/// Whether `token` is the envelope of some text.
pub open spec fn is_envelope(token: Seq<char>) -> bool {
    exists|text: Seq<char>| envelope(text) == token
}

#[verifier::external_type_specification]
#[verifier::external_body]
pub struct ExDecodeError(base64::DecodeError);

#[verifier::external_type_specification]
#[verifier::external_body]
pub struct ExFromUtf8Error(std::string::FromUtf8Error);

/// Relies on `base64::Engine::encode` with the `STANDARD` engine: the padded
/// standard base64 text of the bytes, from which the bytes can be read back,
/// so no other bytes have the same text. No slice is long enough for the size
/// computation to overflow, so the call does not panic.
#[verifier::external_body]
fn base64_encode(bytes: &[u8]) -> (r: String)
    ensures
        r@ == base64_of(bytes@),
        forall|other: Seq<u8>| base64_of(other) == r@ ==> other == bytes@,
{
    STANDARD.encode(bytes)
}

/// Relies on `base64::Engine::decode` with the `STANDARD` engine, whose
/// configuration requires canonical padding and rejects trailing bits: it
/// accepts exactly the texts that `encode` produces, and hands back the bytes
/// they were produced from.
#[verifier::external_body]
fn base64_decode(text: &str) -> (r: Result<Vec<u8>, base64::DecodeError>)
    ensures
        r is Ok ==> base64_of(r->Ok_0@) == text@,
        forall|bytes: Seq<u8>| base64_of(bytes) == text@ ==> r is Ok && r->Ok_0@ == bytes,
{
    STANDARD.decode(text)
}

/// Relies on `String::from_utf8`: it succeeds exactly on valid UTF-8 and then
/// holds the characters those bytes encode.
#[verifier::external_body]
fn string_from_utf8(bytes: Vec<u8>) -> (r: Result<String, std::string::FromUtf8Error>)
    ensures
        r is Ok <==> valid_utf8(bytes@),
        r matches Ok(s) ==> s@ == decode_utf8(bytes@),
{
    String::from_utf8(bytes)
}

/// Wraps a text in the signaling envelope. No other text has the same envelope.
pub fn encode(text: &str) -> (r: String)
    ensures
        r@ == envelope(text@),
        forall|other: Seq<char>| envelope(other) == r@ ==> other == text@,
{
    let r = base64_encode(text.as_bytes());
    assert forall|other: Seq<char>| envelope(other) == r@ implies other == text@ by {
        assert(encode_utf8(other) == encode_utf8(text@));
        assert(decode_utf8(encode_utf8(other)) == other);
        assert(decode_utf8(encode_utf8(text@)) == text@);
    }
    r
}

/// Opens a signaling envelope. Fails with `BadEnvelope` exactly when the token
/// is not the envelope of any text; otherwise returns the text it wraps, so
/// that opening `encode(s)` gives back `s`.
pub fn decode(token: &str) -> (r: Result<String, PeerError>)
    ensures
        r is Ok <==> is_envelope(token@),
        r matches Ok(text) ==> envelope(text@) == token@,
        r matches Err(e) ==> e == PeerError::BadEnvelope,
        forall|text: Seq<char>| envelope(text) == token@ ==> (r matches Ok(s) && s@ == text),
{
    let bytes = match base64_decode(token) {
        Ok(bytes) => bytes,
        Err(_) => {
            assert forall|text: Seq<char>| envelope(text) != token@ by {
                if envelope(text) == token@ {
                    assert(base64_of(encode_utf8(text)) == token@);
                }
            }
            return Err(PeerError::BadEnvelope);
        },
    };
    let ghost raw = bytes@;
    match string_from_utf8(bytes) {
        Ok(text) => {
            assert(encode_utf8(text@) == raw);
            assert(envelope(text@) == token@);
            assert forall|other: Seq<char>| envelope(other) == token@ implies other == text@ by {
                assert(encode_utf8(other) == raw);
                assert(decode_utf8(encode_utf8(other)) == other);
            }
            Ok(text)
        },
        Err(_) => {
            assert forall|text: Seq<char>| envelope(text) != token@ by {
                if envelope(text) == token@ {
                    assert(encode_utf8(text) == raw);
                    assert(valid_utf8(encode_utf8(text)));
                }
            }
            Err(PeerError::BadEnvelope)
        },
    }
}

} // verus!
