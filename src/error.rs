use vstd::prelude::*;

verus! {

/// Why a negotiation or a construction failed.
#[derive(Debug, Clone, Copy, PartialEq, Eq, Structural)]
pub enum NegotiationError {
    /// The SDP text does not parse.
    SdpParse,
    /// A remote media section has a `mid` attribute with an empty value.
    RemoteDescriptionWithoutMidValue,
    /// A remote media section names a `mid` that no local transceiver has.
    TransceiverMidNil,
    /// A data-channel section also names a transceiver.
    MediaSectionMediaDataChanInvalid,
    /// A transceiver-backed section names no transceiver.
    SdpZeroTransceivers,
    /// A sender has a track but no codec to send it with.
    SenderWithNoCodecs,
    /// The session has no certificate.
    NonCertificate,
    /// The remote description has not been parsed.
    RemoteDescriptionNotParsed,
}

} // verus!
