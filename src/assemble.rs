use vstd::prelude::*;
use crate::builder::{
    AddDataMediaSectionParams, RTCIceGatheringState, add_candidate_to_media_descriptions,
    add_data_media_section, add_fingerprints, data_section, fingerprint_attrs,
};
use crate::direction::RTCRtpTransceiverDirection;
use crate::error::NegotiationError;
use crate::lookup::{RidEntry, RidView, rids_view};
use crate::outside::to_uppercase;
use crate::sdp_model::{
    AttributeView, MediaDesc, MediaView, Origin, SessionDesc, property_attr, text,
    value_attr,
};
use crate::section::{
    answer_direction_exec, codec_lines, rejected_section, rid_lines, sender_lines,
    transceiver_section,
};
use crate::transceiver::{
    ConnectionRole, NetAddr, RTCDtlsFingerprint, RTCIceParameters, RTCRtpTransceiver,
};

verus! {

/// One section of a description being built: its mid, the local transceiver it stands
/// for (an index into the transceiver list), whether it is the data-channel section,
/// its simulcast rids, and, on an answer, the direction the peer offered.
#[derive(Debug, Clone)]
pub struct MediaSection {
    pub id: String,
    pub transceiver: Option<usize>,
    pub data: bool,
    pub rid_map: Vec<RidEntry>,
    pub offered_direction: Option<RTCRtpTransceiverDirection>,
}

pub struct SectionView {
    pub id: Seq<char>,
    pub transceiver: Option<usize>,
    pub data: bool,
    pub rid_map: Seq<RidView>,
    pub offered_direction: Option<RTCRtpTransceiverDirection>,
}

impl View for MediaSection {
    type V = SectionView;

    open spec fn view(&self) -> SectionView {
        SectionView {
            id: self.id@,
            transceiver: self.transceiver,
            data: self.data,
            rid_map: rids_view(self.rid_map@),
            offered_direction: self.offered_direction,
        }
    }
}

pub open spec fn sections_seq(ss: Seq<MediaSection>) -> Seq<SectionView> {
    ss.map_values(|m: MediaSection| m@)
}

/// The transceiver a section stands for, if it names one in the list.
pub open spec fn transceiver_of(ms: SectionView, ts: Seq<RTCRtpTransceiver>) -> Option<RTCRtpTransceiver> {
    match ms.transceiver {
        Some(i) => if i < ts.len() { Some(ts[i as int]) } else { None },
        None => None,
    }
}

/// The error that building a section gives, if any.
pub open spec fn section_error(ms: SectionView, ts: Seq<RTCRtpTransceiver>) -> Option<NegotiationError> {
    if ms.data {
        if ms.transceiver.is_some() {
            Some(NegotiationError::MediaSectionMediaDataChanInvalid)
        } else {
            None
        }
    } else {
        match transceiver_of(ms, ts) {
            None => Some(NegotiationError::SdpZeroTransceivers),
            Some(t) => if t.codecs@.len() == 0 && t.sender.track.is_some() {
                Some(NegotiationError::SenderWithNoCodecs)
            } else {
                None
            },
        }
    }
}

/// The error of the first section at or after `from` that fails.
pub open spec fn first_error(ss: Seq<SectionView>, ts: Seq<RTCRtpTransceiver>, from: int) -> Option<NegotiationError>
    decreases ss.len() - from,
{
    if from < 0 || from >= ss.len() {
        None
    } else if section_error(ss[from], ts).is_some() {
        section_error(ss[from], ts)
    } else {
        first_error(ss, ts, from + 1)
    }
}

/// Whether a section's mid joins the BUNDLE group: every section but a rejected one.
pub open spec fn bundled(ms: SectionView, ts: Seq<RTCRtpTransceiver>) -> bool {
    ms.data || transceiver_of(ms, ts).unwrap().codecs@.len() > 0
}

/// The section built for `ms`; `first` says whether it carries the candidates.
pub open spec fn section_view(
    ms: SectionView,
    ts: Seq<RTCRtpTransceiver>,
    first: bool,
    role: ConnectionRole,
    ice: RTCIceParameters,
    fps: Seq<RTCDtlsFingerprint>,
    addr: NetAddr,
) -> MediaView {
    if ms.data {
        data_section(ms.id, role, ice, fps, first, addr, RTCIceGatheringState::Complete)
    } else {
        let t = transceiver_of(ms, ts).unwrap();
        if t.codecs@.len() == 0 {
            rejected_section(t.kind)
        } else {
            transceiver_section(
                t,
                ms.id,
                ms.rid_map,
                ms.offered_direction,
                role,
                ice,
                fps,
                first,
                addr,
                RTCIceGatheringState::Complete,
            )
        }
    }
}

/// The sections built for the first `n` entries, in order; only the first carries
/// candidates.
pub open spec fn sections_view(
    ss: Seq<SectionView>,
    ts: Seq<RTCRtpTransceiver>,
    n: int,
    role: ConnectionRole,
    ice: RTCIceParameters,
    fps: Seq<RTCDtlsFingerprint>,
    addr: NetAddr,
) -> Seq<MediaView>
    decreases n,
{
    if n <= 0 || n > ss.len() {
        Seq::empty()
    } else {
        sections_view(ss, ts, n - 1, role, ice, fps, addr).push(
            section_view(ss[n - 1], ts, n - 1 == 0, role, ice, fps, addr),
        )
    }
}

/// The BUNDLE group's value after the first `n` sections: `BUNDLE` followed by the
/// bundled mids, each after a space, in order.
pub open spec fn bundle_value(ss: Seq<SectionView>, ts: Seq<RTCRtpTransceiver>, n: int) -> Seq<char>
    decreases n,
{
    if n <= 0 || n > ss.len() {
        "BUNDLE"@
    } else if bundled(ss[n - 1], ts) {
        bundle_value(ss, ts, n - 1) + " "@ + ss[n - 1].id
    } else {
        bundle_value(ss, ts, n - 1)
    }
}

/// The parameters of a transceiver-backed section.
pub struct AddTransceiverSdpParams {
    pub should_add_candidates: bool,
    pub mid_value: String,
    pub dtls_role: ConnectionRole,
    pub ice_gathering_state: RTCIceGatheringState,
    pub offered_direction: Option<RTCRtpTransceiverDirection>,
}

/// Appends the section of the transceiver that `media_section` names; says whether its
/// mid joins the BUNDLE group.
pub fn add_transceiver_sdp(
    d: SessionDesc,
    dtls_fingerprints: &Vec<RTCDtlsFingerprint>,
    ice_params: &RTCIceParameters,
    candidate: &NetAddr,
    media_section: &MediaSection,
    transceivers: &Vec<RTCRtpTransceiver>,
    params: AddTransceiverSdpParams,
) -> (r: Result<(SessionDesc, bool), NegotiationError>)
    ensures
        transceiver_of(media_section@, transceivers@).is_none() ==> r == Err::<(SessionDesc, bool), NegotiationError>(NegotiationError::SdpZeroTransceivers),
        transceiver_of(media_section@, transceivers@).is_some() ==> {
            let t = transceiver_of(media_section@, transceivers@).unwrap();
            if t.codecs@.len() == 0 && t.sender.track.is_some() {
                r == Err::<(SessionDesc, bool), NegotiationError>(NegotiationError::SenderWithNoCodecs)
            } else {
                &&& r.is_ok()
                &&& r.unwrap().0@.origin == d@.origin
                &&& r.unwrap().0@.attributes == d@.attributes
                &&& r.unwrap().1 == (t.codecs@.len() > 0)
                &&& r.unwrap().0@.media_descriptions == d@.media_descriptions.push(
                    if t.codecs@.len() == 0 {
                        rejected_section(t.kind)
                    } else {
                        transceiver_section(
                            t,
                            params.mid_value@,
                            media_section@.rid_map,
                            params.offered_direction,
                            params.dtls_role,
                            *ice_params,
                            dtls_fingerprints@,
                            params.should_add_candidates,
                            *candidate,
                            params.ice_gathering_state,
                        )
                    },
                )
            }
        },
{
    let idx = match media_section.transceiver {
        Some(i) => i,
        None => return Err(NegotiationError::SdpZeroTransceivers),
    };
    if idx >= transceivers.len() {
        return Err(NegotiationError::SdpZeroTransceivers);
    }
    let t = &transceivers[idx];
    if t.codecs.len() == 0 {
        if t.sender.track.is_some() {
            return Err(NegotiationError::SenderWithNoCodecs);
        }
        let rejected = MediaDesc {
            media: t.kind.to_string(),
            port: 0,
            protos: vec![text("UDP"), text("TLS"), text("RTP"), text("SAVPF")],
            formats: vec![text("0")],
            connection: crate::builder::placeholder(),
            attributes: Vec::new(),
        };
        proof {
            assert(rejected@.protos =~= rejected_section(t.kind).protos);
            assert(rejected@.formats =~= rejected_section(t.kind).formats);
            assert(rejected@.attributes =~= rejected_section(t.kind).attributes);
        }
        return Ok((d.with_media(rejected), false));
    }
    let media = MediaDesc {
        media: t.kind.to_string(),
        port: 9,
        protos: vec![text("UDP"), text("TLS"), text("RTP"), text("SAVPF")],
        formats: Vec::new(),
        connection: crate::builder::placeholder(),
        attributes: Vec::new(),
    };
    let media = media.with_value_attribute(text("setup"), params.dtls_role.to_string());
    let media = media.with_value_attribute(text("mid"), params.mid_value);
    let media = media.with_value_attribute(text("ice-ufrag"), ice_params.username_fragment.clone());
    let media = media.with_value_attribute(text("ice-pwd"), ice_params.password.clone());
    let media = media.with_property_attribute(text("rtcp-mux"));
    let media = media.with_property_attribute(text("rtcp-rsize"));
    proof {
        let base = crate::section::transceiver_base(t.kind, params.mid_value@, params.dtls_role, *ice_params);
        assert(media@.protos =~= base.protos);
        assert(media@.formats =~= base.formats);
        assert(media@.attributes =~= base.attributes);
    }
    let media = codec_lines(media, &t.codecs);
    let media = rid_lines(media, &media_section.rid_map);
    let media = sender_lines(media, &t.sender);
    let direction = answer_direction_exec(params.offered_direction, t.direction);
    let media = media.with_property_attribute(direction.to_string());
    let mut media = add_fingerprints(media, dtls_fingerprints);
    if params.should_add_candidates {
        media = add_candidate_to_media_descriptions(candidate, media, params.ice_gathering_state);
    }
    Ok((d.with_media(media), true))
}

/// The session-level attributes `populate_sdp` adds: the fingerprints where they are not
/// placed per section, then `a=ice-lite`, then the BUNDLE group.
pub open spec fn populated_attrs(
    ss: Seq<SectionView>,
    ts: Seq<RTCRtpTransceiver>,
    fps: Seq<RTCDtlsFingerprint>,
    media_description_fingerprint: bool,
) -> Seq<AttributeView> {
    let f = if media_description_fingerprint {
        Seq::empty()
    } else {
        fingerprint_attrs(fps, fps.len() as int)
    };
    f.push(property_attr("ice-lite"@)).push(value_attr("group"@, bundle_value(ss, ts, ss.len() as int)))
}

fn add_session_fingerprints(d: SessionDesc, fps: &Vec<RTCDtlsFingerprint>) -> (r: SessionDesc)
    ensures
        r@.attributes == d@.attributes + fingerprint_attrs(fps@, fps@.len() as int),
        r@.origin == d@.origin,
        r@.media_descriptions == d@.media_descriptions,
{
    let mut desc = d;
    let mut i: usize = 0;
    proof {
        assert(d@.attributes =~= d@.attributes + Seq::<AttributeView>::empty());
    }
    while i < fps.len()
        invariant
            i <= fps.len(),
            desc@.attributes == d@.attributes + fingerprint_attrs(fps@, i as int),
            desc@.origin == d@.origin,
            desc@.media_descriptions == d@.media_descriptions,
        decreases fps.len() - i,
    {
        let f = &fps[i];
        let mut v = f.algorithm.clone();
        v.append(" ");
        let up = to_uppercase(f.value.as_str());
        v.append(up.as_str());
        desc = desc.with_value_attribute(text("fingerprint"), v);
        proof {
            assert(desc@.attributes =~= d@.attributes + fingerprint_attrs(fps@, i + 1));
        }
        i = i + 1;
    }
    desc
}

/// Builds every section of `media_sections` into `d`, in order, and adds `a=ice-lite`
/// and the BUNDLE group. Fingerprints go into each section where
/// `media_description_fingerprint` holds, else once at session level. Fails with the
/// error of the first section that cannot be built.
pub fn populate_sdp(
    d: SessionDesc,
    dtls_fingerprints: &Vec<RTCDtlsFingerprint>,
    candidate: &NetAddr,
    ice_params: &RTCIceParameters,
    connection_role: ConnectionRole,
    media_sections: &Vec<MediaSection>,
    transceivers: &Vec<RTCRtpTransceiver>,
    media_description_fingerprint: bool,
) -> (r: Result<SessionDesc, NegotiationError>)
    ensures
        first_error(sections_seq(media_sections@), transceivers@, 0) is Some ==> r == Err::<SessionDesc, NegotiationError>(
            first_error(sections_seq(media_sections@), transceivers@, 0).unwrap(),
        ),
        first_error(sections_seq(media_sections@), transceivers@, 0) is None ==> {
            &&& r.is_ok()
            &&& r.unwrap()@.origin == d@.origin
            &&& r.unwrap()@.attributes == d@.attributes + populated_attrs(
                sections_seq(media_sections@),
                transceivers@,
                dtls_fingerprints@,
                media_description_fingerprint,
            )
            &&& r.unwrap()@.media_descriptions == d@.media_descriptions + sections_view(
                sections_seq(media_sections@),
                transceivers@,
                media_sections@.len() as int,
                connection_role,
                *ice_params,
                if media_description_fingerprint { dtls_fingerprints@ } else { Seq::empty() },
                *candidate,
            )
        },
{
    let no_fingerprints: Vec<RTCDtlsFingerprint> = Vec::new();
    let media_fps: &Vec<RTCDtlsFingerprint> = if media_description_fingerprint {
        dtls_fingerprints
    } else {
        &no_fingerprints
    };
    let ghost ss = sections_seq(media_sections@);
    let ghost ts = transceivers@;
    let mut desc = d;
    let mut bundle = text("BUNDLE");
    let mut i: usize = 0;
    proof {
        assert(d@.media_descriptions =~= d@.media_descriptions + Seq::<MediaView>::empty());
    }
    while i < media_sections.len()
        invariant
            ss == sections_seq(media_sections@),
            ss.len() == media_sections@.len(),
            ts == transceivers@,
            i <= ss.len(),
            first_error(ss, ts, 0) == first_error(ss, ts, i as int),
            desc@.origin == d@.origin,
            desc@.attributes == d@.attributes,
            desc@.media_descriptions == d@.media_descriptions + sections_view(
                ss, ts, i as int, connection_role, *ice_params, media_fps@, *candidate,
            ),
            bundle@ == bundle_value(ss, ts, i as int),
            media_fps@ == (if media_description_fingerprint { dtls_fingerprints@ } else { Seq::<RTCDtlsFingerprint>::empty() }),
        decreases ss.len() - i,
    {
        let m = &media_sections[i];
        if m.data && m.transceiver.is_some() {
            return Err(NegotiationError::MediaSectionMediaDataChanInvalid);
        }
        let should_add_candidates = i == 0;
        let should_add_id = if m.data {
            let params = AddDataMediaSectionParams {
                should_add_candidates,
                mid_value: m.id.clone(),
                ice_params: RTCIceParameters {
                    username_fragment: ice_params.username_fragment.clone(),
                    password: ice_params.password.clone(),
                },
                dtls_role: connection_role,
                ice_gathering_state: RTCIceGatheringState::Complete,
            };
            desc = add_data_media_section(desc, media_fps, candidate, params);
            true
        } else {
            let params = AddTransceiverSdpParams {
                should_add_candidates,
                mid_value: m.id.clone(),
                dtls_role: connection_role,
                ice_gathering_state: RTCIceGatheringState::Complete,
                offered_direction: m.offered_direction,
            };
            match add_transceiver_sdp(desc, media_fps, ice_params, candidate, m, transceivers, params) {
                Ok((d1, add)) => {
                    desc = d1;
                    add
                },
                Err(e) => {
                    return Err(e);
                },
            }
        };
        proof {
            assert(desc@.media_descriptions =~= d@.media_descriptions + sections_view(
                ss, ts, i + 1, connection_role, *ice_params, media_fps@, *candidate,
            ));
        }
        if should_add_id {
            bundle.append(" ");
            bundle.append(m.id.as_str());
        }
        i = i + 1;
    }
    if !media_description_fingerprint {
        desc = add_session_fingerprints(desc, dtls_fingerprints);
    }
    desc = desc.with_property_attribute(text("ice-lite"));
    desc = desc.with_value_attribute(text("group"), bundle);
    proof {
        assert(desc@.attributes =~= d@.attributes + populated_attrs(ss, ts, dtls_fingerprints@, media_description_fingerprint));
    }
    Ok(desc)
}

proof fn lemma_first_error_skips(ss: Seq<SectionView>, ts: Seq<RTCRtpTransceiver>, from: int, k: int)
    requires
        0 <= from <= k,
        forall|j: int| from <= j < k ==> section_error(#[trigger] ss[j], ts).is_none(),
    ensures
        first_error(ss, ts, from) == first_error(ss, ts, k),
    decreases k - from,
{
    if from < k {
        lemma_first_error_skips(ss, ts, from + 1, k);
    }
}

/// A section whose transceiver has no codec fails the build with `SenderWithNoCodecs`
/// where the sender has a track (once the sections before it build); without a track
/// it becomes a rejected section with port 0 and its mid stays out of the BUNDLE group.
pub proof fn lemma_sender_without_codecs(
    ss: Seq<SectionView>,
    ts: Seq<RTCRtpTransceiver>,
    k: int,
    first: bool,
    role: ConnectionRole,
    ice: RTCIceParameters,
    fps: Seq<RTCDtlsFingerprint>,
    addr: NetAddr,
)
    requires
        0 <= k < ss.len(),
        !ss[k].data,
        transceiver_of(ss[k], ts) is Some,
        transceiver_of(ss[k], ts).unwrap().codecs@.len() == 0,
    ensures
        transceiver_of(ss[k], ts).unwrap().sender.track.is_some()
            && (forall|j: int| 0 <= j < k ==> section_error(#[trigger] ss[j], ts).is_none())
            ==> first_error(ss, ts, 0) == Some(NegotiationError::SenderWithNoCodecs),
        transceiver_of(ss[k], ts).unwrap().sender.track.is_none() ==> {
            &&& section_error(ss[k], ts).is_none()
            &&& section_view(ss[k], ts, first, role, ice, fps, addr) == rejected_section(transceiver_of(ss[k], ts).unwrap().kind)
            &&& bundle_value(ss, ts, k + 1) == bundle_value(ss, ts, k)
        },
{
    if transceiver_of(ss[k], ts).unwrap().sender.track.is_some()
        && (forall|j: int| 0 <= j < k ==> section_error(#[trigger] ss[j], ts).is_none()) {
        lemma_first_error_skips(ss, ts, 0, k);
    }
}

/// The stored and the emitted origin after a description with origin `emitted` is
/// stamped: the first time (nothing stored yet) the description's origin is stored;
/// later, the stored id is kept and the stored version goes up by one (wrapping at
/// the top of `u64`), and the description carries both.
pub open spec fn origin_step(stored: Option<Origin>, emitted: Origin) -> (Origin, Origin) {
    match stored {
        None => (emitted, emitted),
        Some(o) => {
            let next = Origin {
                session_id: o.session_id,
                session_version: if o.session_version < u64::MAX {
                    (o.session_version + 1) as u64
                } else {
                    0
                },
            };
            (next, next)
        },
    }
}

/// Two stampings in a row on a session whose origin is stored keep the session id and
/// raise the version by exactly one each time. A session with nothing stored yet takes
/// the first description's origin as it is, version included, and keeps its id from
/// then on.
pub proof fn lemma_origin_versions(stored: Option<Origin>, e1: Origin, e2: Origin)
    ensures
        stored.is_none() ==> origin_step(stored, e1) == (e1, e1),
        stored.is_none() ==> origin_step(Some(origin_step(stored, e1).0), e2).1.session_id == e1.session_id,
        stored.is_some() && stored.unwrap().session_version < u64::MAX - 1 ==> ({
            let o = stored.unwrap();
            let (s1, d1) = origin_step(stored, e1);
            let (s2, d2) = origin_step(Some(s1), e2);
            &&& d1.session_id == o.session_id
            &&& d2.session_id == o.session_id
            &&& d1.session_version == o.session_version + 1
            &&& d2.session_version == d1.session_version + 1
        }),
{
}

/// Keeps the `o=` line steady across renegotiations. The first call, with nothing
/// stored, stores the description's origin. Every later call gives the description
/// the stored session id and the stored version plus one, and stores that version.
pub fn update_sdp_origin(origin: &mut Option<Origin>, d: &mut SessionDesc)
    ensures
        (final(origin).unwrap(), final(d).origin) == origin_step(*old(origin), old(d).origin),
        final(origin).is_some(),
        final(d)@.attributes == old(d)@.attributes,
        final(d)@.media_descriptions == old(d)@.media_descriptions,
{
    match origin {
        None => {
            *origin = Some(d.origin);
        },
        Some(o) => {
            let next = Origin { session_id: o.session_id, session_version: o.session_version.wrapping_add(1) };
            *origin = Some(next);
            d.origin = next;
        },
    }
}

} // verus!
