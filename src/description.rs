use vstd::prelude::*;
use crate::error::NegotiationError;
use crate::outside::{sdp_marshal, sdp_parse, sdp_parse_of, sdp_parses, sdp_text_of};
use crate::sdp_bridge::{from_sdp_attributes, from_sdp_media, media_model, media_plain, medias_model, to_sdp_attributes, to_sdp_media};
use crate::sdp_model::{MediaDesc, SessionDesc};
use crate::sdp_type::RTCSdpType;

verus! {

/// A session description as exchanged with a peer: its type, its SDP text and, once
/// parsed, the parsed form of that text.
#[derive(Debug, Clone)]
pub struct RTCSessionDescription {
    pub sdp_type: RTCSdpType,
    pub sdp: String,
    pub parsed: Option<SessionDesc>,
}

/// Parses SDP text into the library's model.
pub fn parse_sdp(text: &str) -> (r: Result<SessionDesc, NegotiationError>)
    ensures
        r.is_ok() == sdp_parses(text@),
        r.is_ok() ==> r.unwrap()@ == sdp_parse_of(text@),
        r.is_err() ==> r == Err::<SessionDesc, NegotiationError>(NegotiationError::SdpParse),
{
    let (origin, attrs, media) = match sdp_parse(text) {
        Some(p) => p,
        None => return Err(NegotiationError::SdpParse),
    };
    let attributes = from_sdp_attributes(&attrs);
    let mut media_descriptions: Vec<MediaDesc> = Vec::new();
    let mut i: usize = 0;
    while i < media.len()
        invariant
            i <= media.len(),
            media_descriptions@.len() == i,
            forall|j: int| 0 <= j < i ==> (#[trigger] media_descriptions@[j])@ == media_model(media@[j]),
        decreases media.len() - i,
    {
        media_descriptions.push(from_sdp_media(&media[i]));
        i = i + 1;
    }
    let d = SessionDesc { origin, attributes, media_descriptions };
    proof {
        assert(d@.media_descriptions =~= medias_model(media@));
    }
    Ok(d)
}

/// Writes a description as SDP text.
pub fn marshal_sdp(d: &SessionDesc) -> (r: String)
    ensures
        r@ == sdp_text_of(d@),
{
    let attrs = to_sdp_attributes(&d.attributes);
    let mut media: Vec<sdp::MediaDescription> = Vec::new();
    let mut i: usize = 0;
    while i < d.media_descriptions.len()
        invariant
            i <= d.media_descriptions.len(),
            media@.len() == i,
            forall|j: int| 0 <= j < i ==> media_model(#[trigger] media@[j]) == d.media_descriptions@[j]@,
            forall|j: int| 0 <= j < i ==> media_plain(#[trigger] media@[j]),
        decreases d.media_descriptions.len() - i,
    {
        media.push(to_sdp_media(&d.media_descriptions[i]));
        i = i + 1;
    }
    proof {
        assert(medias_model(media@) =~= d@.media_descriptions);
    }
    sdp_marshal(d.origin, attrs, media)
}

impl RTCSessionDescription {
    fn parsed_of(sdp_type: RTCSdpType, sdp: String) -> (r: Result<RTCSessionDescription, NegotiationError>)
        ensures
            r.is_ok() == sdp_parses(sdp@),
            r.is_err() ==> r == Err::<RTCSessionDescription, NegotiationError>(NegotiationError::SdpParse),
            r.is_ok() ==> {
                &&& r.unwrap().sdp_type == sdp_type
                &&& r.unwrap().sdp@ == sdp@
                &&& r.unwrap().parsed.is_some()
                &&& r.unwrap().parsed.unwrap()@ == sdp_parse_of(sdp@)
            },
    {
        let mut desc = RTCSessionDescription { sdp, sdp_type, parsed: None };
        let parsed = desc.unmarshal()?;
        desc.parsed = Some(parsed);
        Ok(desc)
    }

    /// Wraps SDP text of an answer; the text must parse.
    pub fn answer(sdp: String) -> (r: Result<RTCSessionDescription, NegotiationError>)
        ensures
            r.is_ok() == sdp_parses(sdp@),
            r.is_err() ==> r == Err::<RTCSessionDescription, NegotiationError>(NegotiationError::SdpParse),
            r.is_ok() ==> {
                &&& r.unwrap().sdp_type == RTCSdpType::Answer
                &&& r.unwrap().sdp@ == sdp@
                &&& r.unwrap().parsed.is_some()
                &&& r.unwrap().parsed.unwrap()@ == sdp_parse_of(sdp@)
            },
    {
        Self::parsed_of(RTCSdpType::Answer, sdp)
    }

    /// Wraps SDP text of an offer; the text must parse.
    pub fn offer(sdp: String) -> (r: Result<RTCSessionDescription, NegotiationError>)
        ensures
            r.is_ok() == sdp_parses(sdp@),
            r.is_err() ==> r == Err::<RTCSessionDescription, NegotiationError>(NegotiationError::SdpParse),
            r.is_ok() ==> {
                &&& r.unwrap().sdp_type == RTCSdpType::Offer
                &&& r.unwrap().sdp@ == sdp@
                &&& r.unwrap().parsed.is_some()
                &&& r.unwrap().parsed.unwrap()@ == sdp_parse_of(sdp@)
            },
    {
        Self::parsed_of(RTCSdpType::Offer, sdp)
    }

    /// Wraps SDP text of a provisional answer; the text must parse.
    pub fn pranswer(sdp: String) -> (r: Result<RTCSessionDescription, NegotiationError>)
        ensures
            r.is_ok() == sdp_parses(sdp@),
            r.is_err() ==> r == Err::<RTCSessionDescription, NegotiationError>(NegotiationError::SdpParse),
            r.is_ok() ==> {
                &&& r.unwrap().sdp_type == RTCSdpType::Pranswer
                &&& r.unwrap().sdp@ == sdp@
                &&& r.unwrap().parsed.is_some()
                &&& r.unwrap().parsed.unwrap()@ == sdp_parse_of(sdp@)
            },
    {
        Self::parsed_of(RTCSdpType::Pranswer, sdp)
    }

    /// Parses this description's SDP text.
    pub fn unmarshal(&self) -> (r: Result<SessionDesc, NegotiationError>)
        ensures
            r.is_ok() == sdp_parses(self.sdp@),
            r.is_ok() ==> r.unwrap()@ == sdp_parse_of(self.sdp@),
            r.is_err() ==> r == Err::<SessionDesc, NegotiationError>(NegotiationError::SdpParse),
    {
        parse_sdp(self.sdp.as_str())
    }
}

} // verus!
