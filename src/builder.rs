use vstd::prelude::*;
use crate::outside::{to_uppercase, upper_of};
use crate::sdp_model::{AttributeView, ConnectionInfo, ConnectionView, connection_view, MediaDesc, MediaView, SessionDesc, property_attr, text, value_attr};
use crate::text::{decimal, str_eq, to_decimal};
use crate::transceiver::{ConnectionRole, NetAddr, RTCDtlsFingerprint, RTCIceParameters, role_text};

verus! {

/// Where ICE candidate gathering stands.
#[derive(Debug, Clone, Copy, PartialEq, Eq, Structural)]
pub enum RTCIceGatheringState {
    Unspecified,
    /// No transport is gathering yet, or there are none.
    New,
    /// Some transport is gathering.
    Gathering,
    /// Every transport has finished gathering.
    Complete,
}

impl Default for RTCIceGatheringState {
    fn default() -> (r: RTCIceGatheringState)
        ensures
            r == RTCIceGatheringState::Unspecified,
    {
        RTCIceGatheringState::Unspecified
    }
}

impl MediaView {
    pub open spec fn with_attrs(self, a: Seq<AttributeView>) -> MediaView {
        MediaView { attributes: self.attributes + a, ..self }
    }
}

pub open spec fn fingerprint_attr(f: RTCDtlsFingerprint) -> AttributeView {
    value_attr("fingerprint"@, f.algorithm@ + " "@ + upper_of(f.value@))
}

/// One `a=fingerprint` per fingerprint, in order, its value in upper case.
pub open spec fn fingerprint_attrs(fps: Seq<RTCDtlsFingerprint>, n: int) -> Seq<AttributeView>
    decreases n,
{
    if n <= 0 || n > fps.len() {
        Seq::empty()
    } else {
        fingerprint_attrs(fps, n - 1).push(fingerprint_attr(fps[n - 1]))
    }
}

/// The host candidate line for one component of `addr`.
pub open spec fn candidate_text(component: nat, addr: NetAddr) -> Seq<char> {
    "1 "@ + decimal(component) + " UDP 1 "@ + addr.ip@ + " "@ + decimal(addr.port as nat)
        + " typ host"@
}

pub open spec fn has_value(attrs: Seq<AttributeView>, v: Seq<char>) -> bool {
    exists|i: int| 0 <= i < attrs.len() && #[trigger] attrs[i].value == Some(v)
}

pub open spec fn has_key(attrs: Seq<AttributeView>, k: Seq<char>) -> bool {
    exists|i: int| 0 <= i < attrs.len() && #[trigger] attrs[i].key == k
}

pub open spec fn append_candidate_if_new(m: MediaView, v: Seq<char>) -> MediaView {
    if has_value(m.attributes, v) {
        m
    } else {
        m.with_attr(value_attr("candidate"@, v))
    }
}

/// The section with its RTP and RTCP host candidates, each added unless some attribute
/// already has that value, and then, once gathering is complete, one
/// `a=end-of-candidates` unless the section has it.
pub open spec fn with_candidates(m: MediaView, addr: NetAddr, state: RTCIceGatheringState) -> MediaView {
    let m2 = append_candidate_if_new(
        append_candidate_if_new(m, candidate_text(1, addr)),
        candidate_text(2, addr),
    );
    if state != RTCIceGatheringState::Complete || has_key(m2.attributes, "end-of-candidates"@) {
        m2
    } else {
        m2.with_attr(property_attr("end-of-candidates"@))
    }
}

/// The connection line every section carries: `c=IN IP4 0.0.0.0`.
pub open spec fn placeholder_connection() -> Option<ConnectionView> {
    Some(ConnectionView { network_type: "IN"@, address_type: "IP4"@, address: Some("0.0.0.0"@) })
}

pub fn placeholder() -> (r: Option<ConnectionInfo>)
    ensures
        connection_view(r) == placeholder_connection(),
{
    Some(ConnectionInfo { network_type: text("IN"), address_type: text("IP4"), address: Some(text("0.0.0.0")) })
}

/// The data-channel section before fingerprints and candidates.
pub open spec fn data_section_base(mid: Seq<char>, role: ConnectionRole, ice: RTCIceParameters) -> MediaView {
    MediaView {
        media: "application"@,
        port: 9,
        protos: seq!["UDP"@, "DTLS"@, "SCTP"@],
        formats: seq!["webrtc-datachannel"@],
        connection: placeholder_connection(),
        attributes: seq![
            value_attr("setup"@, role_text(role)),
            value_attr("mid"@, mid),
            property_attr("sendrecv"@),
            value_attr("sctp-port"@, "5000"@),
            value_attr("max-message-size"@, "262144"@),
            value_attr("ice-ufrag"@, ice.username_fragment@),
            value_attr("ice-pwd"@, ice.password@),
        ],
    }
}

pub open spec fn with_candidates_if(
    m: MediaView,
    add: bool,
    addr: NetAddr,
    state: RTCIceGatheringState,
) -> MediaView {
    if add {
        with_candidates(m, addr, state)
    } else {
        m
    }
}

/// The whole data-channel section.
pub open spec fn data_section(
    mid: Seq<char>,
    role: ConnectionRole,
    ice: RTCIceParameters,
    fps: Seq<RTCDtlsFingerprint>,
    add_candidates: bool,
    addr: NetAddr,
    state: RTCIceGatheringState,
) -> MediaView {
    with_candidates_if(
        data_section_base(mid, role, ice).with_attrs(fingerprint_attrs(fps, fps.len() as int)),
        add_candidates,
        addr,
        state,
    )
}

/// Adds one `a=fingerprint` per fingerprint.
pub fn add_fingerprints(m: MediaDesc, fps: &Vec<RTCDtlsFingerprint>) -> (r: MediaDesc)
    ensures
        r@ == m@.with_attrs(fingerprint_attrs(fps@, fps@.len() as int)),
{
    let mut media = m;
    let mut i: usize = 0;
    proof {
        assert(m@.attributes =~= m@.attributes + Seq::<AttributeView>::empty());
    }
    while i < fps.len()
        invariant
            i <= fps.len(),
            media@ == m@.with_attrs(fingerprint_attrs(fps@, i as int)),
        decreases fps.len() - i,
    {
        let f = &fps[i];
        let mut v = f.algorithm.clone();
        v.append(" ");
        let up = to_uppercase(f.value.as_str());
        v.append(up.as_str());
        media = media.with_value_attribute(text("fingerprint"), v);
        proof {
            assert(fingerprint_attrs(fps@, i + 1) == fingerprint_attrs(fps@, i as int).push(fingerprint_attr(fps@[i as int])));
            assert(media@.attributes =~= m@.attributes + fingerprint_attrs(fps@, i + 1));
        }
        i = i + 1;
    }
    media
}

/// The host candidate line for one component of `addr`.
pub fn candidate_line(component: u64, addr: &NetAddr) -> (r: String)
    ensures
        r@ == candidate_text(component as nat, *addr),
{
    let mut s = text("1 ");
    s.append(to_decimal(component).as_str());
    s.append(" UDP 1 ");
    s.append(addr.ip.as_str());
    s.append(" ");
    s.append(to_decimal(addr.port as u64).as_str());
    s.append(" typ host");
    s
}

fn has_value_exec(m: &MediaDesc, v: &String) -> (r: bool)
    ensures
        r == has_value(m@.attributes, v@),
{
    let mut i: usize = 0;
    while i < m.attributes.len()
        invariant
            i <= m.attributes.len(),
            forall|j: int| 0 <= j < i ==> m@.attributes[j].value != Some(v@),
        decreases m.attributes.len() - i,
    {
        match &m.attributes[i].value {
            Some(x) => {
                if str_eq(x.as_str(), v.as_str()) {
                    assert(m@.attributes[i as int].value == Some(v@));
                    return true;
                }
            },
            None => {},
        }
        i = i + 1;
    }
    false
}

fn has_key_exec(m: &MediaDesc, k: &str) -> (r: bool)
    ensures
        r == has_key(m@.attributes, k@),
{
    let mut i: usize = 0;
    while i < m.attributes.len()
        invariant
            i <= m.attributes.len(),
            forall|j: int| 0 <= j < i ==> m@.attributes[j].key != k@,
        decreases m.attributes.len() - i,
    {
        if str_eq(m.attributes[i].key.as_str(), k) {
            assert(m@.attributes[i as int].key == k@);
            return true;
        }
        i = i + 1;
    }
    false
}

fn append_candidate(m: MediaDesc, v: String) -> (r: MediaDesc)
    ensures
        r@ == append_candidate_if_new(m@, v@),
{
    if has_value_exec(&m, &v) {
        m
    } else {
        m.with_value_attribute(text("candidate"), v)
    }
}

/// Embeds the host candidates of `candidate` in a media section.
pub fn add_candidate_to_media_descriptions(
    candidate: &NetAddr,
    m: MediaDesc,
    ice_gathering_state: RTCIceGatheringState,
) -> (r: MediaDesc)
    ensures
        r@ == with_candidates(m@, *candidate, ice_gathering_state),
{
    let m = append_candidate(m, candidate_line(1, candidate));
    let m = append_candidate(m, candidate_line(2, candidate));
    if ice_gathering_state != RTCIceGatheringState::Complete {
        return m;
    }
    if has_key_exec(&m, "end-of-candidates") {
        return m;
    }
    m.with_property_attribute(text("end-of-candidates"))
}

/// The parameters of a data-channel section.
pub struct AddDataMediaSectionParams {
    pub should_add_candidates: bool,
    pub mid_value: String,
    pub ice_params: RTCIceParameters,
    pub dtls_role: ConnectionRole,
    pub ice_gathering_state: RTCIceGatheringState,
}

/// Appends the data-channel section to `d`.
pub fn add_data_media_section(
    d: SessionDesc,
    dtls_fingerprints: &Vec<RTCDtlsFingerprint>,
    candidate: &NetAddr,
    params: AddDataMediaSectionParams,
) -> (r: SessionDesc)
    ensures
        r@.origin == d@.origin,
        r@.attributes == d@.attributes,
        r@.media_descriptions == d@.media_descriptions.push(
            data_section(
                params.mid_value@,
                params.dtls_role,
                params.ice_params,
                dtls_fingerprints@,
                params.should_add_candidates,
                *candidate,
                params.ice_gathering_state,
            ),
        ),
{
    let media = MediaDesc {
        media: text("application"),
        port: 9,
        protos: vec![text("UDP"), text("DTLS"), text("SCTP")],
        formats: vec![text("webrtc-datachannel")],
        connection: placeholder(),
        attributes: Vec::new(),
    };
    let ghost ice = params.ice_params;
    let media = media.with_value_attribute(text("setup"), params.dtls_role.to_string());
    let media = media.with_value_attribute(text("mid"), params.mid_value);
    let media = media.with_property_attribute(text("sendrecv"));
    let media = media.with_value_attribute(text("sctp-port"), text("5000"));
    let media = media.with_value_attribute(text("max-message-size"), text("262144"));
    let media = media.with_value_attribute(text("ice-ufrag"), params.ice_params.username_fragment);
    let media = media.with_value_attribute(text("ice-pwd"), params.ice_params.password);
    proof {
        assert(media@.protos =~= data_section_base(params.mid_value@, params.dtls_role, ice).protos);
        assert(media@.formats =~= data_section_base(params.mid_value@, params.dtls_role, ice).formats);
        assert(media@.attributes =~= data_section_base(params.mid_value@, params.dtls_role, ice).attributes);
    }
    let mut media = add_fingerprints(media, dtls_fingerprints);
    if params.should_add_candidates {
        media = add_candidate_to_media_descriptions(candidate, media, params.ice_gathering_state);
    }
    d.with_media(media)
}

} // verus!
