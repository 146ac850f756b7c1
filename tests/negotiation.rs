use sfu_session::builder::RTCIceGatheringState;
use sfu_session::lookup::get_rids;
use sfu_session::description::{RTCSessionDescription, marshal_sdp, parse_sdp};
use sfu_session::direction::RTCRtpTransceiverDirection;
use sfu_session::error::NegotiationError;
use sfu_session::sdp_model::{Attr, ConnectionInfo, MediaDesc, SessionDesc};
use sfu_session::sdp_type::RTCSdpType;
use sfu_session::session::{Candidate, FourTuple, Protocol, Session};
use sfu_session::transceiver::{
    ConnectionRole, NetAddr, RTCCertificate, RTCDtlsFingerprint, RTCIceParameters, RTCPFeedback,
    RTCRtpCodecCapability, RTCRtpCodecParameters, RTCRtpSender, RTCRtpTransceiver, RTPCodecType,
    TrackInfo,
};

const OFFER: &str = "v=0\r\n\
o=- 4215775240449105457 2 IN IP4 127.0.0.1\r\n\
s=-\r\n\
t=0 0\r\n\
a=group:BUNDLE 0 1\r\n\
m=audio 9 UDP/TLS/RTP/SAVPF 111\r\n\
c=IN IP4 0.0.0.0\r\n\
a=mid:0\r\n\
a=sendrecv\r\n\
a=rtpmap:111 opus/48000/2\r\n\
m=application 9 UDP/DTLS/SCTP webrtc-datachannel\r\n\
c=IN IP4 0.0.0.0\r\n\
a=mid:1\r\n\
a=sctp-port:5000\r\n";

fn session() -> Session {
    Session::new(
        7,
        NetAddr { ip: "10.0.0.1".to_owned(), port: 3478 },
        vec![RTCCertificate {
            fingerprints: vec![RTCDtlsFingerprint {
                algorithm: "sha-256".to_owned(),
                value: "ab:cd:ef".to_owned(),
            }],
        }],
    )
}

fn ice() -> RTCIceParameters {
    RTCIceParameters { username_fragment: "ufrag".to_owned(), password: "pwd".to_owned() }
}

fn opus() -> RTCRtpCodecParameters {
    opus_with_feedback("transport-cc", "")
}

fn opus_with_feedback(typ: &str, parameter: &str) -> RTCRtpCodecParameters {
    RTCRtpCodecParameters {
        capability: RTCRtpCodecCapability {
            mime_type: "audio/opus".to_owned(),
            clock_rate: 48000,
            channels: 2,
            sdp_fmtp_line: "minptime=10;useinbandfec=1".to_owned(),
            rtcp_feedback: vec![RTCPFeedback { typ: typ.to_owned(), parameter: parameter.to_owned() }],
        },
        payload_type: 111,
    }
}

fn transceiver(mid: &str, direction: RTCRtpTransceiverDirection, codecs: Vec<RTCRtpCodecParameters>, track: bool) -> RTCRtpTransceiver {
    RTCRtpTransceiver {
        mid: mid.to_owned(),
        sender: RTCRtpSender {
            track: if track {
                Some(TrackInfo { id: "track-a".to_owned(), stream_id: "stream-a".to_owned() })
            } else {
                None
            },
            ssrc: 1234,
            initial_track_id: None,
            associated_media_stream_ids: vec!["stream-a".to_owned()],
            negotiated: false,
        },
        direction,
        current_direction: RTCRtpTransceiverDirection::Unspecified,
        codecs,
        stopped: false,
        kind: RTPCodecType::Audio,
    }
}

fn value_of<'a>(attrs: &'a [Attr], key: &str) -> Option<&'a str> {
    attrs.iter().find(|a| a.key == key).and_then(|a| a.value.as_deref())
}

fn has_key(attrs: &[Attr], key: &str) -> bool {
    attrs.iter().any(|a| a.key == key)
}

fn same_attrs(a: &[Attr], b: &[Attr]) -> bool {
    a.len() == b.len() && a.iter().zip(b).all(|(x, y)| x.key == y.key && x.value == y.value)
}

fn same_connection(a: &Option<ConnectionInfo>, b: &Option<ConnectionInfo>) -> bool {
    match (a, b) {
        (Some(x), Some(y)) => x.network_type == y.network_type && x.address_type == y.address_type && x.address == y.address,
        (None, None) => true,
        _ => false,
    }
}

fn same_media(a: &MediaDesc, b: &MediaDesc) -> bool {
    a.media == b.media
        && a.port == b.port
        && a.protos == b.protos
        && a.formats == b.formats
        && same_connection(&a.connection, &b.connection)
        && same_attrs(&a.attributes, &b.attributes)
}

fn same_description(a: &SessionDesc, b: &SessionDesc) -> bool {
    a.origin == b.origin
        && same_attrs(&a.attributes, &b.attributes)
        && a.media_descriptions.len() == b.media_descriptions.len()
        && a.media_descriptions.iter().zip(&b.media_descriptions).all(|(x, y)| same_media(x, y))
}

#[test]
fn answer_echoes_offer_sections_and_bundle() {
    let s = session();
    let remote = RTCSessionDescription::offer(OFFER.to_owned()).unwrap();
    let mut ts = vec![transceiver("0", RTCRtpTransceiverDirection::Sendonly, vec![opus()], true)];
    let d = s
        .generate_matched_sdp(&remote, &ice(), &mut ts, false, false, ConnectionRole::Passive)
        .unwrap();
    assert_eq!(d.media_descriptions.len(), 2);
    assert_eq!(value_of(&d.media_descriptions[0].attributes, "mid"), Some("0"));
    assert_eq!(value_of(&d.media_descriptions[1].attributes, "mid"), Some("1"));
    assert_eq!(value_of(&d.attributes, "group"), Some("BUNDLE 0 1"));
    assert!(has_key(&d.attributes, "ice-lite"));
    let audio = &d.media_descriptions[0];
    assert_eq!(audio.media, "audio");
    assert!(has_key(&audio.attributes, "sendonly"));
    assert!(!has_key(&audio.attributes, "sendrecv"));
    assert_eq!(audio.formats, vec!["111".to_owned()]);
    assert_eq!(value_of(&audio.attributes, "rtpmap"), Some("111 opus/48000/2"));
    assert_eq!(value_of(&audio.attributes, "fmtp"), Some("111 minptime=10;useinbandfec=1"));
    assert_eq!(value_of(&audio.attributes, "rtcp-fb"), Some("111 transport-cc "));
    assert_eq!(value_of(&audio.attributes, "setup"), Some("passive"));
    assert_eq!(value_of(&audio.attributes, "fingerprint"), Some("sha-256 AB:CD:EF"));
    assert_eq!(value_of(&audio.attributes, "candidate"), Some("1 1 UDP 1 10.0.0.1 3478 typ host"));
    assert!(has_key(&audio.attributes, "end-of-candidates"));
    assert_eq!(value_of(&audio.attributes, "msid"), Some("stream-a track-a"));
    let data = &d.media_descriptions[1];
    assert_eq!(data.media, "application");
    assert_eq!(data.port, 9);
    assert_eq!(data.formats, vec!["webrtc-datachannel".to_owned()]);
    assert_eq!(value_of(&data.attributes, "sctp-port"), Some("5000"));
    assert_eq!(value_of(&data.attributes, "max-message-size"), Some("262144"));
    assert!(!has_key(&data.attributes, "candidate"));
    assert!(ts[0].sender.negotiated);
    assert_eq!(ts[0].sender.initial_track_id.as_deref(), Some("track-a"));
}

#[test]
fn answer_direction_follows_one_way_offer() {
    let offer = OFFER.replace("a=sendrecv", "a=sendonly");
    let s = session();
    let remote = RTCSessionDescription::offer(offer).unwrap();
    let mut ts = vec![transceiver("0", RTCRtpTransceiverDirection::Sendrecv, vec![opus()], false)];
    let d = s
        .generate_matched_sdp(&remote, &ice(), &mut ts, false, false, ConnectionRole::Passive)
        .unwrap();
    assert!(has_key(&d.media_descriptions[0].attributes, "recvonly"));
}

#[test]
fn unmatched_mid_is_an_error() {
    let offer = OFFER.replace("a=mid:0", "a=mid:5");
    let s = session();
    let remote = RTCSessionDescription::offer(offer).unwrap();
    let mut ts = vec![transceiver("0", RTCRtpTransceiverDirection::Sendrecv, vec![opus()], true)];
    let r = s.generate_matched_sdp(&remote, &ice(), &mut ts, false, false, ConnectionRole::Passive);
    assert_eq!(r.err(), Some(NegotiationError::TransceiverMidNil));
    assert!(!ts[0].sender.negotiated);
}

#[test]
fn empty_mid_is_an_error() {
    let offer = OFFER.replace("a=mid:0", "a=mid:");
    let s = session();
    let remote = RTCSessionDescription::offer(offer).unwrap();
    let mut ts = vec![transceiver("0", RTCRtpTransceiverDirection::Sendrecv, vec![opus()], true)];
    let r = s.generate_matched_sdp(&remote, &ice(), &mut ts, false, false, ConnectionRole::Passive);
    assert_eq!(r.err(), Some(NegotiationError::RemoteDescriptionWithoutMidValue));
}

#[test]
fn sender_without_codecs_is_an_error() {
    let s = session();
    let remote = RTCSessionDescription::offer(OFFER.to_owned()).unwrap();
    let mut ts = vec![transceiver("0", RTCRtpTransceiverDirection::Sendrecv, vec![], true)];
    let r = s.generate_matched_sdp(&remote, &ice(), &mut ts, false, false, ConnectionRole::Passive);
    assert_eq!(r.err(), Some(NegotiationError::SenderWithNoCodecs));
}

#[test]
fn receiver_without_codecs_is_rejected_and_left_out_of_bundle() {
    let s = session();
    let remote = RTCSessionDescription::offer(OFFER.to_owned()).unwrap();
    let mut ts = vec![transceiver("0", RTCRtpTransceiverDirection::Sendrecv, vec![], false)];
    let d = s
        .generate_matched_sdp(&remote, &ice(), &mut ts, false, false, ConnectionRole::Passive)
        .unwrap();
    let rejected = &d.media_descriptions[0];
    assert_eq!(rejected.port, 0);
    assert_eq!(rejected.formats, vec!["0".to_owned()]);
    assert_eq!(rejected.protos, vec!["UDP", "TLS", "RTP", "SAVPF"]);
    let c = rejected.connection.as_ref().unwrap();
    assert_eq!((c.network_type.as_str(), c.address_type.as_str(), c.address.as_deref()), ("IN", "IP4", Some("0.0.0.0")));
    assert!(rejected.attributes.is_empty());
    assert_eq!(value_of(&d.attributes, "group"), Some("BUNDLE 1"));
}

#[test]
fn missing_certificate_is_an_error() {
    let s = Session::new(7, NetAddr { ip: "10.0.0.1".to_owned(), port: 3478 }, vec![]);
    let remote = RTCSessionDescription::offer(OFFER.to_owned()).unwrap();
    let mut ts = vec![transceiver("0", RTCRtpTransceiverDirection::Sendrecv, vec![opus()], true)];
    let r = s.generate_matched_sdp(&remote, &ice(), &mut ts, false, false, ConnectionRole::Passive);
    assert_eq!(r.err(), Some(NegotiationError::NonCertificate));
}

#[test]
fn unparsed_remote_is_an_error() {
    let s = session();
    let remote = RTCSessionDescription { sdp_type: RTCSdpType::Offer, sdp: OFFER.to_owned(), parsed: None };
    let mut ts = vec![];
    let r = s.generate_matched_sdp(&remote, &ice(), &mut ts, false, false, ConnectionRole::Passive);
    assert_eq!(r.err(), Some(NegotiationError::RemoteDescriptionNotParsed));
}

#[test]
fn offer_appends_unmatched_transceivers_after_matched_ones() {
    let offer = OFFER.replace("m=application 9 UDP/DTLS/SCTP webrtc-datachannel\r\nc=IN IP4 0.0.0.0\r\na=mid:1\r\na=sctp-port:5000\r\n", "");
    let s = session();
    let remote = RTCSessionDescription::offer(offer).unwrap();
    let mut ts = vec![
        transceiver("3", RTCRtpTransceiverDirection::Recvonly, vec![opus()], false),
        transceiver("0", RTCRtpTransceiverDirection::Sendrecv, vec![opus()], false),
    ];
    let d = s
        .generate_matched_sdp(&remote, &ice(), &mut ts, true, true, ConnectionRole::Actpass)
        .unwrap();
    let mids: Vec<Option<&str>> = d.media_descriptions.iter().map(|m| value_of(&m.attributes, "mid")).collect();
    assert_eq!(mids, vec![Some("0"), Some("3"), Some("2")]);
    assert!(has_key(&d.attributes, "identity"));
    assert_eq!(value_of(&d.attributes, "group"), Some("BUNDLE 0 3 2"));
    assert!(has_key(&d.media_descriptions[1].attributes, "recvonly"));
    assert!(ts[0].sender.negotiated && ts[1].sender.negotiated);
}

#[test]
fn successive_answers_raise_the_origin_version_by_one() {
    let mut s = session();
    let remote = RTCSessionDescription::offer(OFFER.to_owned()).unwrap();
    let mut ts = vec![transceiver("0", RTCRtpTransceiverDirection::Sendrecv, vec![opus()], true)];
    let a1 = s.create_pending_answer(1, &remote, &ice(), &mut ts).unwrap();
    let a2 = s.create_pending_answer(1, &remote, &ice(), &mut ts).unwrap();
    let a3 = s.create_pending_answer(1, &remote, &ice(), &mut ts).unwrap();
    let o1 = a1.parsed.unwrap().origin;
    let o2 = a2.parsed.unwrap().origin;
    let o3 = a3.parsed.as_ref().unwrap().origin;
    assert_eq!(a1.sdp_type, RTCSdpType::Answer);
    assert_eq!(o2.session_id, o1.session_id);
    assert_eq!(o3.session_id, o1.session_id);
    assert_eq!(o2.session_version, o1.session_version + 1);
    assert_eq!(o3.session_version, o2.session_version + 1);
    assert_eq!(s.origin(), Some(o3));
    assert!(a3.sdp.contains(&format!("o=- {} {} IN IP4", o3.session_id, o3.session_version)));
}

#[test]
fn marshal_then_parse_gives_the_description_back() {
    let s = session();
    let remote = RTCSessionDescription::offer(OFFER.to_owned()).unwrap();
    let mut ts = vec![transceiver("0", RTCRtpTransceiverDirection::Sendrecv, vec![opus_with_feedback("nack", "pli")], true)];
    let d = s
        .generate_matched_sdp(&remote, &ice(), &mut ts, false, false, ConnectionRole::Passive)
        .unwrap();
    let text = marshal_sdp(&d);
    assert!(text.contains("a=group:BUNDLE 0 1"));
    assert!(text.contains("a=rtcp-fb:111 nack pli"));
    let back = parse_sdp(&text).unwrap();
    assert!(same_description(&back, &d));
}

#[test]
fn malformed_sdp_is_refused() {
    assert_eq!(RTCSessionDescription::offer("not sdp".to_owned()).err(), Some(NegotiationError::SdpParse));
    assert_eq!(RTCSessionDescription::answer("x=1".to_owned()).err(), Some(NegotiationError::SdpParse));
    let p = RTCSessionDescription::pranswer(OFFER.to_owned()).unwrap();
    assert_eq!(p.sdp_type, RTCSdpType::Pranswer);
    assert_eq!(p.parsed.unwrap().media_descriptions.len(), 2);
}

fn path(port: u16) -> FourTuple {
    FourTuple {
        local_addr: NetAddr { ip: "10.0.0.1".to_owned(), port: 3478 },
        peer_addr: NetAddr { ip: "192.168.1.2".to_owned(), port },
        protocol: Protocol::UDP,
    }
}

#[test]
fn add_endpoint_twice_on_one_path_keeps_one_transport() {
    let mut s = session();
    let c = Candidate { session_id: 7, endpoint_id: 42 };
    let first = s.add_endpoint(&c, path(5000));
    assert_eq!(first, (false, 0, 0));
    let second = s.add_endpoint(&c, path(5000));
    assert_eq!(second, (true, 0, 0));
    let third = s.add_endpoint(&c, path(5000));
    assert_eq!(third, (true, 0, 0));
    assert_eq!(s.endpoints().len(), 1);
    assert_eq!(s.endpoints()[0].transports.len(), 1);
}

#[test]
fn add_endpoint_on_a_new_path_adds_a_transport() {
    let mut s = session();
    let c = Candidate { session_id: 7, endpoint_id: 42 };
    s.add_endpoint(&c, path(5000));
    let r = s.add_endpoint(&c, path(5001));
    assert_eq!(r, (true, 0, 1));
    assert_eq!(s.endpoints().len(), 1);
    assert_eq!(s.endpoints()[0].transports.len(), 2);
    let other = Candidate { session_id: 7, endpoint_id: 43 };
    assert_eq!(s.add_endpoint(&other, path(5000)), (false, 1, 0));
    assert_eq!(s.get_endpoint(43).map(|e| e.transports.len()), Some(1));
    assert!(s.get_endpoint(44).is_none());
    assert_eq!(s.session_id(), 7);
}

#[test]
fn msid_keeps_the_first_advertised_track_id() {
    let s = session();
    let remote = RTCSessionDescription::offer(OFFER.to_owned()).unwrap();
    let mut ts = vec![transceiver("0", RTCRtpTransceiverDirection::Sendrecv, vec![opus()], true)];
    s.generate_matched_sdp(&remote, &ice(), &mut ts, false, false, ConnectionRole::Passive)
        .unwrap();
    ts[0].sender.track = Some(TrackInfo { id: "track-b".to_owned(), stream_id: "stream-a".to_owned() });
    let d = s
        .generate_matched_sdp(&remote, &ice(), &mut ts, false, false, ConnectionRole::Passive)
        .unwrap();
    let audio = &d.media_descriptions[0];
    let msids: Vec<&str> = audio
        .attributes
        .iter()
        .filter(|a| a.key == "msid")
        .filter_map(|a| a.value.as_deref())
        .collect();
    assert_eq!(msids, vec!["stream-a track-a"]);
    assert!(audio.attributes.iter().any(|a| a.value.as_deref() == Some("1234 label:track-b")));
    assert_eq!(ts[0].sender.initial_track_id.as_deref(), Some("track-a"));
}

#[test]
fn fresh_origin_has_a_63_bit_id() {
    let s = session();
    let remote = RTCSessionDescription::offer(OFFER.to_owned()).unwrap();
    let mut ts = vec![transceiver("0", RTCRtpTransceiverDirection::Sendrecv, vec![opus()], true)];
    let d = s
        .generate_matched_sdp(&remote, &ice(), &mut ts, false, false, ConnectionRole::Passive)
        .unwrap();
    assert!(d.origin.session_id < (1u64 << 63));
    assert!(d.origin.session_version < 1_000_000_000);
}

#[test]
fn new_transport_holds_its_candidate_and_endpoint() {
    let mut s = session();
    assert_eq!(s.origin(), None);
    let c1 = Candidate { session_id: 7, endpoint_id: 42 };
    let c2 = Candidate { session_id: 8, endpoint_id: 42 };
    s.add_endpoint(&c1, path(5000));
    s.add_endpoint(&c2, path(5001));
    let e = s.get_endpoint(42).unwrap();
    assert_eq!(e.session_id, 7);
    assert_eq!(e.transports[1].endpoint_id, 42);
    assert_eq!(e.transports[1].candidate.session_id, 8);
    assert_eq!(e.transports[0].candidate.session_id, 7);
}

#[test]
fn rids_are_listed_once_each() {
    let m = MediaDesc {
        media: "video".to_owned(),
        port: 9,
        protos: vec![],
        formats: vec![],
        connection: None,
        attributes: vec![
            Attr { key: "rid".to_owned(), value: Some("hi send".to_owned()) },
            Attr { key: "rid".to_owned(), value: Some("lo send".to_owned()) },
            Attr { key: "rid".to_owned(), value: Some("hi recv".to_owned()) },
        ],
    };
    let rids = get_rids(&m);
    let pairs: Vec<(&str, &str)> = rids.iter().map(|r| (r.rid.as_str(), r.value.as_str())).collect();
    assert_eq!(pairs, vec![("hi", "hi recv"), ("lo", "lo send")]);
}

#[test]
fn gathering_state_defaults_to_unspecified() {
    assert_eq!(RTCIceGatheringState::default(), RTCIceGatheringState::Unspecified);
}
