use vstd::prelude::*;
use crate::direction::RTCRtpTransceiverDirection;

verus! {

/// An RTCP feedback mechanism that a codec declares (`nack pli`, `transport-cc`, ...).
#[derive(Debug, Clone)]
pub struct RTCPFeedback {
    /// The type of feedback: ack, ccm, nack, goog-remb, transport-cc.
    pub typ: String,
    /// Its parameter; for example `pli` with `nack`.
    pub parameter: String,
}

/// What a codec is: mime type, clock rate, channels, format parameters and feedback.
#[derive(Debug, Clone)]
pub struct RTCRtpCodecCapability {
    pub mime_type: String,
    pub clock_rate: u32,
    pub channels: u16,
    pub sdp_fmtp_line: String,
    pub rtcp_feedback: Vec<RTCPFeedback>,
}

/// A codec with the payload type it is offered under.
#[derive(Debug, Clone)]
pub struct RTCRtpCodecParameters {
    pub capability: RTCRtpCodecCapability,
    pub payload_type: u8,
}

/// The media kind of a transceiver.
#[derive(Debug, Clone, Copy, PartialEq, Eq, Structural)]
pub enum RTPCodecType {
    Unspecified,
    Audio,
    Video,
}

pub open spec fn codec_type_text(t: RTPCodecType) -> Seq<char> {
    match t {
        RTPCodecType::Unspecified => "Unspecified"@,
        RTPCodecType::Audio => "audio"@,
        RTPCodecType::Video => "video"@,
    }
}

pub open spec fn codec_type_of_text(s: Seq<char>) -> RTPCodecType {
    if s == "audio"@ {
        RTPCodecType::Audio
    } else if s == "video"@ {
        RTPCodecType::Video
    } else {
        RTPCodecType::Unspecified
    }
}

impl RTPCodecType {
    /// Reads a media kind from an `m=` line's media type.
    pub fn from_str_name(s: &str) -> (r: RTPCodecType)
        ensures
            r == codec_type_of_text(s@),
    {
        if crate::text::str_eq(s, "audio") {
            RTPCodecType::Audio
        } else if crate::text::str_eq(s, "video") {
            RTPCodecType::Video
        } else {
            RTPCodecType::Unspecified
        }
    }

    pub fn to_string(&self) -> (r: String)
        ensures
            r@ == codec_type_text(*self),
    {
        match self {
            RTPCodecType::Unspecified => String::from_str("Unspecified"),
            RTPCodecType::Audio => String::from_str("audio"),
            RTPCodecType::Video => String::from_str("video"),
        }
    }
}

/// The track a sender sends: its id and the id of the stream it belongs to.
#[derive(Debug, Clone)]
pub struct TrackInfo {
    pub id: String,
    pub stream_id: String,
}

/// The sending half of a transceiver.
#[derive(Debug, Clone)]
pub struct RTCRtpSender {
    /// The outbound track, if one is attached.
    pub track: Option<TrackInfo>,
    pub ssrc: u32,
    /// The track id first advertised in `a=msid`; once set it never changes.
    pub initial_track_id: Option<String>,
    pub associated_media_stream_ids: Vec<String>,
    pub negotiated: bool,
}

/// A sender and a receiver that share one `mid`.
#[derive(Debug, Clone)]
pub struct RTCRtpTransceiver {
    pub mid: String,
    pub sender: RTCRtpSender,
    pub direction: RTCRtpTransceiverDirection,
    pub current_direction: RTCRtpTransceiverDirection,
    /// The codecs configured for this transceiver.
    pub codecs: Vec<RTCRtpCodecParameters>,
    pub stopped: bool,
    pub kind: RTPCodecType,
}

/// ICE credentials: username fragment and password.
#[derive(Debug, Clone)]
pub struct RTCIceParameters {
    pub username_fragment: String,
    pub password: String,
}

/// One DTLS certificate fingerprint: hash algorithm and hex value.
#[derive(Debug, Clone)]
pub struct RTCDtlsFingerprint {
    pub algorithm: String,
    pub value: String,
}

/// A certificate, given by its fingerprints.
#[derive(Debug, Clone)]
pub struct RTCCertificate {
    pub fingerprints: Vec<RTCDtlsFingerprint>,
}

/// The `a=setup` role.
#[derive(Debug, Clone, Copy, PartialEq, Eq, Structural)]
pub enum ConnectionRole {
    Unspecified,
    Active,
    Passive,
    Actpass,
    Holdconn,
}

pub open spec fn role_text(r: ConnectionRole) -> Seq<char> {
    match r {
        ConnectionRole::Active => "active"@,
        ConnectionRole::Passive => "passive"@,
        ConnectionRole::Actpass => "actpass"@,
        ConnectionRole::Holdconn => "holdconn"@,
        ConnectionRole::Unspecified => "Unspecified"@,
    }
}

impl ConnectionRole {
    pub fn to_string(&self) -> (r: String)
        ensures
            r@ == role_text(*self),
    {
        match self {
            ConnectionRole::Active => String::from_str("active"),
            ConnectionRole::Passive => String::from_str("passive"),
            ConnectionRole::Actpass => String::from_str("actpass"),
            ConnectionRole::Holdconn => String::from_str("holdconn"),
            ConnectionRole::Unspecified => String::from_str("Unspecified"),
        }
    }
}

/// The DTLS role of this side.
#[derive(Debug, Clone, Copy, PartialEq, Eq, Structural)]
pub enum DTLSRole {
    Auto,
    Client,
    Server,
}

impl DTLSRole {
    /// The `a=setup` role that announces this DTLS role.
    pub fn to_connection_role(&self) -> (r: ConnectionRole)
        ensures
            *self == DTLSRole::Client ==> r == ConnectionRole::Active,
            *self == DTLSRole::Server ==> r == ConnectionRole::Passive,
            *self == DTLSRole::Auto ==> r == ConnectionRole::Actpass,
    {
        match self {
            DTLSRole::Client => ConnectionRole::Active,
            DTLSRole::Server => ConnectionRole::Passive,
            DTLSRole::Auto => ConnectionRole::Actpass,
        }
    }
}

/// A socket address: IP address text and port.
#[derive(Debug, Clone)]
pub struct NetAddr {
    pub ip: String,
    pub port: u16,
}

} // verus!
