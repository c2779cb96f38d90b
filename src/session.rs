//! Session descriptions on the signaling hop: a token is the envelope of the
//! description's JSON.
use vstd::prelude::*;

use webrtc::peer_connection::sdp::session_description::RTCSessionDescription;

use crate::codec::{decode, encode, envelope, is_envelope};
use crate::error::PeerError;

verus! {

#[verifier::external_type_specification]
#[verifier::external_body]
pub struct ExRTCSessionDescription(RTCSessionDescription);

#[verifier::external_type_specification]
#[verifier::external_body]
pub struct ExJsonError(serde_json::Error);

/// Whether a text is the JSON of a session description, that is an object
/// with a known `type` and an `sdp` string.
pub uninterp spec fn is_description_json(text: Seq<char>) -> bool;

/// The text that a signaling token wraps.
pub open spec fn opened(token: Seq<char>) -> Seq<char>
    recommends
        is_envelope(token),
{
    choose|text: Seq<char>| envelope(text) == token
}

/// Relies on `serde_json::from_str` for `RTCSessionDescription`: whether the
/// text parses depends on the text alone.
#[verifier::external_body]
fn description_from_json(text: &str) -> (r: Result<RTCSessionDescription, serde_json::Error>)
    ensures
        r is Ok <==> is_description_json(text@),
{
    serde_json::from_str::<RTCSessionDescription>(text)
}

/// Relies on `serde_json::to_string` for `RTCSessionDescription`. Its
/// `Serialize` is derived over a field-less enum and a string (the parsed form
/// is skipped), so writing cannot fail, and the derived `Deserialize` reads the
/// text back.
#[verifier::external_body]
fn description_to_json(description: &RTCSessionDescription) -> (r: Result<String, serde_json::Error>)
    ensures
        r is Ok,
        r is Ok ==> is_description_json(r->Ok_0@),
{
    serde_json::to_string(description)
}

/// Reads the session description that a signaling token carries. Fails with
/// `BadEnvelope` when the token is no envelope, and with `SdpFailure` when
/// the text it wraps is not the JSON of a session description.
pub fn read_description(token: &str) -> (r: Result<RTCSessionDescription, PeerError>)
    ensures
        r == Err::<RTCSessionDescription, PeerError>(PeerError::BadEnvelope) <==> !is_envelope(
            token@,
        ),
        r == Err::<RTCSessionDescription, PeerError>(PeerError::SdpFailure) <==> is_envelope(
            token@,
        ) && !is_description_json(opened(token@)),
        r is Ok <==> is_envelope(token@) && is_description_json(opened(token@)),
        forall|text: Seq<char>|
            envelope(text) == token@ && is_description_json(text) ==> r is Ok,
{
    let text = match decode(token) {
        Ok(text) => text,
        Err(e) => return Err(e),
    };
    assert(opened(token@) == text@);
    match description_from_json(text.as_str()) {
        Ok(description) => Ok(description),
        Err(_) => Err(PeerError::SdpFailure),
    }
}

/// Writes the local session description as a signaling token: the envelope
/// of the description's JSON, which `read_description` reads back. Fails with
/// `SdpFailure` exactly when there is no description.
pub fn write_description(local: Option<RTCSessionDescription>) -> (r: Result<String, PeerError>)
    ensures
        r is Ok <==> local is Some,
        r matches Err(e) ==> e == PeerError::SdpFailure,
        r matches Ok(token) ==> is_envelope(token@) && is_description_json(opened(token@)),
{
    match local {
        None => Err(PeerError::SdpFailure),
        Some(description) => match description_to_json(&description) {
            Ok(json) => {
                let token = encode(json.as_str());
                assert(opened(token@) == json@);
                Ok(token)
            },
            Err(_) => Err(PeerError::SdpFailure),
        },
    }
}

} // verus!
