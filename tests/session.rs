use cyberdeck::codec::{decode, encode};
use cyberdeck::error::PeerError;
use cyberdeck::session::{read_description, write_description};
use webrtc::peer_connection::sdp::sdp_type::RTCSdpType;

const OFFER_JSON: &str = "{\"type\":\"offer\",\"sdp\":\"v=0\\r\\no=- 0 0 IN IP4 127.0.0.1\\r\\ns=-\\r\\nt=0 0\\r\\n\"}";

#[test]
fn bad_envelope_is_refused() {
    assert_eq!(
        read_description("!!!not-base64!!!").err(),
        Some(PeerError::BadEnvelope)
    );
}

#[test]
fn bad_sdp_json_is_refused() {
    assert_eq!(
        read_description(&encode("{not sdp}")).err(),
        Some(PeerError::SdpFailure)
    );
}

#[test]
fn unknown_sdp_type_is_refused() {
    let token = encode("{\"type\":\"greeting\",\"sdp\":\"v=0\"}");
    assert_eq!(read_description(&token).err(), Some(PeerError::SdpFailure));
}

#[test]
fn valid_offer_is_read() {
    let description = read_description(&encode(OFFER_JSON)).unwrap();
    assert_eq!(description.sdp_type, RTCSdpType::Offer);
    assert_eq!(
        description.sdp,
        "v=0\r\no=- 0 0 IN IP4 127.0.0.1\r\ns=-\r\nt=0 0\r\n"
    );
}

#[test]
fn valid_offer_after_bad_envelope_is_read() {
    assert!(read_description("!!!not-base64!!!").is_err());
    let description = read_description(&encode(OFFER_JSON)).unwrap();
    assert_eq!(description.sdp_type, RTCSdpType::Offer);
}

#[test]
fn missing_local_description_fails() {
    assert_eq!(write_description(None), Err(PeerError::SdpFailure));
}

#[test]
fn written_description_reads_back() {
    let description = read_description(&encode(OFFER_JSON)).unwrap();
    let token = write_description(Some(description)).unwrap();
    let json = decode(&token).unwrap();
    assert!(json.contains("\"type\":\"offer\""));
    let again = read_description(&token).unwrap();
    assert_eq!(again.sdp_type, RTCSdpType::Offer);
    assert_eq!(again.sdp, "v=0\r\no=- 0 0 IN IP4 127.0.0.1\r\ns=-\r\nt=0 0\r\n");
}

