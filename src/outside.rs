use vstd::prelude::*;
use sdp::description::common::Attribute as SdpAttribute;
use crate::sdp_bridge::{media_plain, medias_model, sdp_attrs_view};
use crate::sdp_model::{Origin, SessionView};

verus! {

#[verifier::external_type_specification]
pub struct ExSdpRangedPort(sdp::description::media::RangedPort);

#[verifier::external_type_specification]
pub struct ExSdpMediaName(sdp::description::media::MediaName);

#[verifier::external_type_specification]
pub struct ExSdpAddress(sdp::description::common::Address);

#[verifier::external_type_specification]
pub struct ExSdpConnectionInformation(sdp::description::common::ConnectionInformation);

#[verifier::external_type_specification]
pub struct ExSdpBandwidth(sdp::description::common::Bandwidth);

#[verifier::external_type_specification]
pub struct ExSdpAttribute(sdp::description::common::Attribute);

#[verifier::external_type_specification]
pub struct ExSdpMediaDescription(sdp::description::media::MediaDescription);

/// The upper-case form of a text, as std's `str::to_uppercase` gives it.
pub uninterp spec fn upper_of(s: Seq<char>) -> Seq<char>;

/// Whether the sdp crate's parser accepts a text.
pub uninterp spec fn sdp_parses(s: Seq<char>) -> bool;

/// What the sdp crate's parser yields for a text, in the library's model.
pub uninterp spec fn sdp_parse_of(s: Seq<char>) -> SessionView;

/// The SDP text that the sdp crate writes for a description.
pub uninterp spec fn sdp_text_of(d: SessionView) -> Seq<char>;

/// Relies on std's `str::to_uppercase`: its result depends on the characters alone.
#[verifier::external_body]
pub(crate) fn to_uppercase(s: &str) -> (r: String)
    ensures
        r@ == upper_of(s@),
{
    s.to_uppercase()
}

/// Relies on sdp's `SessionDescription::new_jsep_session_description` for a fresh
/// origin: a random session id with its top bit clear, and a version taken from the
/// sub-second nanoseconds of the clock.
#[verifier::external_body]
pub(crate) fn new_jsep_origin() -> (r: Origin)
    ensures
        r.session_id < 0x8000_0000_0000_0000u64,
        r.session_version < 1_000_000_000u64,
{
    let d = sdp::SessionDescription::new_jsep_session_description(false);
    Origin { session_id: d.origin.session_id, session_version: d.origin.session_version }
}

/// Relies on sdp's `SessionDescription::unmarshal` to parse SDP text, handing out the
/// origin, the session-level attributes and the media sections; whether it succeeds,
/// and what it yields, depend on the text alone.
#[verifier::external_body]
pub(crate) fn sdp_parse(text: &str) -> (r: Option<(Origin, Vec<SdpAttribute>, Vec<sdp::MediaDescription>)>)
    ensures
        r.is_some() == sdp_parses(text@),
        r.is_some() ==> (SessionView {
            origin: r.unwrap().0,
            attributes: sdp_attrs_view(r.unwrap().1@),
            media_descriptions: medias_model(r.unwrap().2@),
        }) == sdp_parse_of(text@),
{
    let d = sdp::SessionDescription::unmarshal(&mut std::io::Cursor::new(text.as_bytes())).ok()?;
    let origin = Origin { session_id: d.origin.session_id, session_version: d.origin.session_version };
    Some((origin, d.attributes, d.media_descriptions))
}

/// Relies on sdp's `SessionDescription::marshal` to write SDP text, for a JSEP session
/// (`new_jsep_session_description`, whose random origin is overwritten) with the given
/// origin, attributes and media sections. The text depends on what the model keeps
/// alone: attributes are written by key and value, and the media sections hold nothing
/// more.
#[verifier::external_body]
pub(crate) fn sdp_marshal(origin: Origin, attrs: Vec<SdpAttribute>, media: Vec<sdp::MediaDescription>) -> (r: String)
    requires
        forall|i: int| 0 <= i < media@.len() ==> media_plain(#[trigger] media@[i]),
    ensures
        r@ == sdp_text_of(SessionView {
            origin,
            attributes: sdp_attrs_view(attrs@),
            media_descriptions: medias_model(media@),
        }),
{
    let mut d = sdp::SessionDescription::new_jsep_session_description(false);
    d.origin.session_id = origin.session_id;
    d.origin.session_version = origin.session_version;
    d.attributes = attrs;
    d.media_descriptions = media;
    d.marshal()
}

} // verus!
