use vstd::prelude::*;
use crate::assemble::{MediaSection, SectionView, sections_seq};
use crate::direction::RTCRtpTransceiverDirection;
use crate::error::NegotiationError;
use crate::lookup::{RidEntry, RidView, get_mid_value, get_peer_direction, get_rids, mid_value, peer_direction, rid_map, rids_view};
use crate::sdp_model::{MediaDesc, MediaView};
use crate::text::{decimal, str_eq, to_decimal};
use crate::transceiver::{RTCRtpTransceiver, RTPCodecType, codec_type_of_text};

verus! {

/// The index of the first transceiver at or after `from` whose mid is `mid`.
pub open spec fn find_mid(ts: Seq<RTCRtpTransceiver>, mid: Seq<char>, from: int) -> Option<int>
    decreases ts.len() - from,
{
    if from < 0 || from >= ts.len() {
        None
    } else if ts[from].mid@ == mid {
        Some(from)
    } else {
        find_mid(ts, mid, from + 1)
    }
}

/// What one remote media section adds to the sections collected so far (and to whether
/// an application section was seen): nothing without a `mid`; a data-channel section
/// for `application`; nothing where kind or direction is unknown; else the section of
/// the transceiver with that mid. An empty mid, or one that no transceiver has, fails.
pub open spec fn match_step(
    m: MediaView,
    ss: Seq<SectionView>,
    app: bool,
    ts: Seq<RTCRtpTransceiver>,
    include_unmatched: bool,
) -> Result<(Seq<SectionView>, bool), NegotiationError> {
    match mid_value(m.attributes) {
        None => Ok((ss, app)),
        Some(mid) => if mid.len() == 0 {
            Err(NegotiationError::RemoteDescriptionWithoutMidValue)
        } else if m.media == "application"@ {
            Ok((ss.push(SectionView { id: mid, transceiver: None, data: true, rid_map: Seq::empty(), offered_direction: None }), true))
        } else {
            let direction = peer_direction(m.attributes, 0);
            if codec_type_of_text(m.media) == RTPCodecType::Unspecified
                || direction == RTCRtpTransceiverDirection::Unspecified {
                Ok((ss, app))
            } else {
                match find_mid(ts, mid, 0) {
                    None => Err(NegotiationError::TransceiverMidNil),
                    Some(j) => Ok((ss.push(SectionView {
                        id: mid,
                        transceiver: Some(j as usize),
                        data: false,
                        rid_map: rid_map(m.attributes, m.attributes.len() as int),
                        offered_direction: if include_unmatched { None } else { Some(direction) },
                    }), app)),
                }
            }
        },
    }
}

/// The sections matched from the first `n` remote media sections, in their order.
pub open spec fn match_prefix(
    media: Seq<MediaView>,
    ts: Seq<RTCRtpTransceiver>,
    include_unmatched: bool,
    n: int,
) -> Result<(Seq<SectionView>, bool), NegotiationError>
    decreases n,
{
    if n <= 0 || n > media.len() {
        Ok((Seq::empty(), false))
    } else {
        match match_prefix(media, ts, include_unmatched, n - 1) {
            Err(e) => Err(e),
            Ok((ss, app)) => match_step(media[n - 1], ss, app, ts, include_unmatched),
        }
    }
}

/// Whether a transceiver-backed section among `ss` has mid `mid`.
pub open spec fn is_matched(ss: Seq<SectionView>, mid: Seq<char>) -> bool {
    exists|k: int| 0 <= k < ss.len() && !(#[trigger] ss[k]).data && ss[k].id == mid
}

/// `ss` followed by a section for each of the first `n` transceivers whose mid no
/// section of `matched` has.
pub open spec fn with_unmatched(
    ss: Seq<SectionView>,
    matched: Seq<SectionView>,
    ts: Seq<RTCRtpTransceiver>,
    n: int,
) -> Seq<SectionView>
    decreases n,
{
    if n <= 0 || n > ts.len() {
        ss
    } else {
        let prev = with_unmatched(ss, matched, ts, n - 1);
        if is_matched(matched, ts[n - 1].mid@) {
            prev
        } else {
            prev.push(SectionView {
                id: ts[n - 1].mid@,
                transceiver: Some((n - 1) as usize),
                data: false,
                rid_map: Seq::empty(),
                offered_direction: None,
            })
        }
    }
}

/// The section list of a negotiation: the matched remote sections in order; on an
/// offer, then every unmatched local transceiver, and a data-channel section named
/// by its index where the remote had no application section.
pub open spec fn matched_sections(
    media: Seq<MediaView>,
    ts: Seq<RTCRtpTransceiver>,
    include_unmatched: bool,
) -> Result<Seq<SectionView>, NegotiationError> {
    match match_prefix(media, ts, include_unmatched, media.len() as int) {
        Err(e) => Err(e),
        Ok((ss, app)) => if !include_unmatched {
            Ok(ss)
        } else {
            let all = with_unmatched(ss, ss, ts, ts.len() as int);
            if app {
                Ok(all)
            } else {
                Ok(all.push(SectionView {
                    id: decimal(all.len()),
                    transceiver: None,
                    data: true,
                    rid_map: Seq::empty(),
                    offered_direction: None,
                }))
            }
        },
    }
}

fn find_transceiver(ts: &Vec<RTCRtpTransceiver>, mid: &String) -> (r: Option<usize>)
    ensures
        match r {
            Some(j) => find_mid(ts@, mid@, 0) == Some(j as int),
            None => find_mid(ts@, mid@, 0).is_none(),
        },
{
    let mut j: usize = 0;
    while j < ts.len()
        invariant
            j <= ts.len(),
            find_mid(ts@, mid@, 0) == find_mid(ts@, mid@, j as int),
        decreases ts.len() - j,
    {
        if str_eq(ts[j].mid.as_str(), mid.as_str()) {
            return Some(j);
        }
        j = j + 1;
    }
    None
}

/// Matches the remote media sections against the local transceivers, giving the
/// ordered list of sections to build.
pub fn match_sections(
    media: &Vec<MediaDesc>,
    ts: &Vec<RTCRtpTransceiver>,
    include_unmatched: bool,
) -> (r: Result<Vec<MediaSection>, NegotiationError>)
    ensures
        match matched_sections(media@.map_values(|m: MediaDesc| m@), ts@, include_unmatched) {
            Err(e) => r == Err::<Vec<MediaSection>, NegotiationError>(e),
            Ok(ss) => r.is_ok() && sections_seq(r.unwrap()@) == ss,
        },
{
    let ghost mv = media@.map_values(|m: MediaDesc| m@);
    let mut sections: Vec<MediaSection> = Vec::new();
    let mut app = false;
    let mut i: usize = 0;
    proof {
        assert(sections_seq(sections@) =~= Seq::<SectionView>::empty());
    }
    while i < media.len()
        invariant
            mv == media@.map_values(|m: MediaDesc| m@),
            i <= media.len(),
            match_prefix(mv, ts@, include_unmatched, i as int) == Ok::<(Seq<SectionView>, bool), NegotiationError>((sections_seq(sections@), app)),
        decreases media.len() - i,
    {
        let m = &media[i];
        let ghost before = sections_seq(sections@);
        let mid_opt = get_mid_value(m);
        match mid_opt {
            None => {},
            Some(mid_value) => {
                if mid_value.as_str().unicode_len() == 0 {
                    assert(match_prefix(mv, ts@, include_unmatched, i + 1) == Err::<(Seq<SectionView>, bool), NegotiationError>(NegotiationError::RemoteDescriptionWithoutMidValue));
                    proof { lemma_prefix_err_stays(mv, ts@, include_unmatched, i + 1); }
                    return Err(NegotiationError::RemoteDescriptionWithoutMidValue);
                }
                if str_eq(m.media.as_str(), "application") {
                    let no_rids: Vec<RidEntry> = Vec::new();
                    proof {
                        assert(rids_view(no_rids@) =~= Seq::<RidView>::empty());
                    }
                    sections.push(MediaSection {
                        id: mid_value,
                        transceiver: None,
                        data: true,
                        rid_map: no_rids,
                        offered_direction: None,
                    });
                    app = true;
                    proof {
                        assert(sections_seq(sections@) =~= before.push(SectionView { id: mid_value@, transceiver: None, data: true, rid_map: Seq::empty(), offered_direction: None }));
                    }
                } else {
                    let kind = RTPCodecType::from_str_name(m.media.as_str());
                    let direction = get_peer_direction(m);
                    if kind != RTPCodecType::Unspecified && direction != RTCRtpTransceiverDirection::Unspecified {
                        match find_transceiver(ts, &mid_value) {
                            None => {
                                proof { lemma_prefix_err_stays(mv, ts@, include_unmatched, i + 1); }
                                return Err(NegotiationError::TransceiverMidNil);
                            },
                            Some(j) => {
                                let rids = get_rids(m);
                                let offered = if include_unmatched { None } else { Some(direction) };
                                let ghost sv = SectionView {
                                    id: mid_value@,
                                    transceiver: Some(j),
                                    data: false,
                                    rid_map: rids_view(rids@),
                                    offered_direction: offered,
                                };
                                sections.push(MediaSection {
                                    id: mid_value,
                                    transceiver: Some(j),
                                    data: false,
                                    rid_map: rids,
                                    offered_direction: offered,
                                });
                                proof {
                                    assert(sections_seq(sections@) =~= before.push(sv));
                                }
                            },
                        }
                    }
                }
            },
        }
        i = i + 1;
    }
    if !include_unmatched {
        return Ok(sections);
    }
    let ghost matched = sections_seq(sections@);
    let n_matched = sections.len();
    let mut j: usize = 0;
    while j < ts.len()
        invariant
            j <= ts.len(),
            n_matched <= sections.len(),
            sections_seq(sections@).subrange(0, n_matched as int) == matched,
            sections_seq(sections@) == with_unmatched(matched, matched, ts@, j as int),
        decreases ts.len() - j,
    {
        let ghost before = sections_seq(sections@);
        if !matched_exec_prefix(&sections, n_matched, &ts[j].mid) {
            let no_rids: Vec<RidEntry> = Vec::new();
            proof {
                assert(rids_view(no_rids@) =~= Seq::<RidView>::empty());
            }
            sections.push(MediaSection {
                id: ts[j].mid.clone(),
                transceiver: Some(j),
                data: false,
                rid_map: no_rids,
                offered_direction: None,
            });
            proof {
                assert(sections_seq(sections@) =~= before.push(SectionView { id: ts@[j as int].mid@, transceiver: Some(j), data: false, rid_map: Seq::empty(), offered_direction: None }));
                assert(sections_seq(sections@).subrange(0, n_matched as int) =~= before.subrange(0, n_matched as int));
            }
        }
        j = j + 1;
    }
    if !app {
        let id = to_decimal(sections.len() as u64);
        let ghost before = sections_seq(sections@);
        let no_rids: Vec<RidEntry> = Vec::new();
        proof {
            assert(rids_view(no_rids@) =~= Seq::<RidView>::empty());
        }
        sections.push(MediaSection { id, transceiver: None, data: true, rid_map: no_rids, offered_direction: None });
        proof {
            assert(sections_seq(sections@) =~= before.push(SectionView { id: decimal(before.len()), transceiver: None, data: true, rid_map: Seq::empty(), offered_direction: None }));
        }
    }
    Ok(sections)
}

/// Whether one of the first `n` sections is transceiver-backed with mid `mid`.
fn matched_exec_prefix(ss: &Vec<MediaSection>, n: usize, mid: &String) -> (r: bool)
    requires
        n <= ss.len(),
    ensures
        r == is_matched(sections_seq(ss@).subrange(0, n as int), mid@),
{
    let ghost sv = sections_seq(ss@).subrange(0, n as int);
    let mut k: usize = 0;
    while k < n
        invariant
            sv == sections_seq(ss@).subrange(0, n as int),
            n <= ss.len(),
            k <= n,
            forall|i: int| 0 <= i < k ==> !(!sv[i].data && sv[i].id == mid@),
        decreases n - k,
    {
        if !ss[k].data && str_eq(ss[k].id.as_str(), mid.as_str()) {
            assert(!sv[k as int].data && sv[k as int].id == mid@);
            return true;
        }
        k = k + 1;
    }
    false
}

/// Once a prefix fails, every longer prefix fails with the same error.
proof fn lemma_prefix_err_stays(
    media: Seq<MediaView>,
    ts: Seq<RTCRtpTransceiver>,
    include_unmatched: bool,
    n: int,
)
    requires
        0 <= n <= media.len(),
        match_prefix(media, ts, include_unmatched, n) is Err,
    ensures
        match_prefix(media, ts, include_unmatched, media.len() as int)
            == match_prefix(media, ts, include_unmatched, n),
    decreases media.len() - n,
{
    if n < media.len() {
        assert(match_prefix(media, ts, include_unmatched, n + 1) == match_prefix(media, ts, include_unmatched, n));
        lemma_prefix_err_stays(media, ts, include_unmatched, n + 1);
    }
}

proof fn lemma_find_mid_none(ts: Seq<RTCRtpTransceiver>, mid: Seq<char>, from: int)
    requires
        forall|j: int| 0 <= j < ts.len() ==> (#[trigger] ts[j]).mid@ != mid,
    ensures
        find_mid(ts, mid, from).is_none(),
    decreases ts.len() - from,
{
    if 0 <= from < ts.len() {
        lemma_find_mid_none(ts, mid, from + 1);
    }
}

/// A remote audio or video section with a direction whose mid no local transceiver
/// has makes the whole match fail with `TransceiverMidNil`, once the sections before
/// it matched.
pub proof fn lemma_unmatched_mid_fails(
    media: Seq<MediaView>,
    ts: Seq<RTCRtpTransceiver>,
    include_unmatched: bool,
    k: int,
    mid: Seq<char>,
)
    requires
        0 <= k < media.len(),
        match_prefix(media, ts, include_unmatched, k) is Ok,
        mid_value(media[k].attributes) == Some(mid),
        mid.len() > 0,
        media[k].media != "application"@,
        codec_type_of_text(media[k].media) != RTPCodecType::Unspecified,
        peer_direction(media[k].attributes, 0) != RTCRtpTransceiverDirection::Unspecified,
        forall|j: int| 0 <= j < ts.len() ==> (#[trigger] ts[j]).mid@ != mid,
    ensures
        matched_sections(media, ts, include_unmatched) == Err::<Seq<SectionView>, NegotiationError>(NegotiationError::TransceiverMidNil),
{
    lemma_find_mid_none(ts, mid, 0);
    assert(match_prefix(media, ts, include_unmatched, k + 1) == Err::<(Seq<SectionView>, bool), NegotiationError>(NegotiationError::TransceiverMidNil));
    lemma_prefix_err_stays(media, ts, include_unmatched, k + 1);
}

} // verus!
