use vstd::prelude::*;
use crate::builder::{
    RTCIceGatheringState, fingerprint_attrs, placeholder_connection, with_candidates_if,
};
use crate::direction::{RTCRtpTransceiverDirection, direction_text, spec_intersect, spec_reverse};
use crate::lookup::{RidEntry, RidView, rids_view};
use crate::sdp_model::{
    AttributeView, MediaDesc, MediaView, property_attr, text,
    value_attr,
};
use crate::text::{decimal, str_eq, to_decimal};
use crate::transceiver::{
    ConnectionRole, NetAddr, RTCDtlsFingerprint, RTCIceParameters, RTCPFeedback,
    RTCRtpCodecParameters, RTCRtpSender, RTCRtpTransceiver, RTPCodecType, codec_type_text,
    role_text,
};

verus! {

/// `s` with every leading repetition of `p` removed.
pub open spec fn strip_all(s: Seq<char>, p: Seq<char>) -> Seq<char>
    decreases s.len(),
{
    if p.len() > 0 && p.len() <= s.len() && s.subrange(0, p.len() as int) == p {
        strip_all(s.subrange(p.len() as int, s.len() as int), p)
    } else {
        s
    }
}

/// The codec name of a mime type: without its `audio/` and `video/` prefixes.
pub open spec fn codec_name(mime: Seq<char>) -> Seq<char> {
    strip_all(strip_all(mime, "audio/"@), "video/"@)
}

pub open spec fn rtpmap_text(c: RTCRtpCodecParameters) -> Seq<char> {
    let base = decimal(c.payload_type as nat) + " "@ + codec_name(c.capability.mime_type@) + "/"@
        + decimal(c.capability.clock_rate as nat);
    if c.capability.channels > 0 {
        base + "/"@ + decimal(c.capability.channels as nat)
    } else {
        base
    }
}

/// The section with one codec: its payload type as a format, its `a=rtpmap` and, where
/// it has format parameters, its `a=fmtp`.
pub open spec fn with_codec(m: MediaView, c: RTCRtpCodecParameters) -> MediaView {
    let pt = decimal(c.payload_type as nat);
    let m1 = m.with_format(pt).with_attr(value_attr("rtpmap"@, rtpmap_text(c)));
    if c.capability.sdp_fmtp_line@.len() > 0 {
        m1.with_attr(value_attr("fmtp"@, pt + " "@ + c.capability.sdp_fmtp_line@))
    } else {
        m1
    }
}

pub open spec fn feedback_attr(pt: u8, f: RTCPFeedback) -> AttributeView {
    value_attr("rtcp-fb"@, decimal(pt as nat) + " "@ + f.typ@ + " "@ + f.parameter@)
}

/// One `a=rtcp-fb` per feedback mechanism, in order.
pub open spec fn feedback_attrs(pt: u8, fbs: Seq<RTCPFeedback>, n: int) -> Seq<AttributeView>
    decreases n,
{
    if n <= 0 || n > fbs.len() {
        Seq::empty()
    } else {
        feedback_attrs(pt, fbs, n - 1).push(feedback_attr(pt, fbs[n - 1]))
    }
}

/// The section with the first `n` codecs, each followed by its feedback lines.
pub open spec fn with_codecs(m: MediaView, cs: Seq<RTCRtpCodecParameters>, n: int) -> MediaView
    decreases n,
{
    if n <= 0 || n > cs.len() {
        m
    } else {
        let c = cs[n - 1];
        with_codec(with_codecs(m, cs, n - 1), c).with_attrs(
            feedback_attrs(c.payload_type, c.capability.rtcp_feedback@, c.capability.rtcp_feedback@.len() as int),
        )
    }
}

pub open spec fn rid_attrs(rids: Seq<RidView>, n: int) -> Seq<AttributeView>
    decreases n,
{
    if n <= 0 || n > rids.len() {
        Seq::empty()
    } else {
        rid_attrs(rids, n - 1).push(value_attr("rid"@, rids[n - 1].rid + " recv"@))
    }
}

/// The first `n` rids joined by `;`.
pub open spec fn rid_join(rids: Seq<RidView>, n: int) -> Seq<char>
    decreases n,
{
    if n <= 0 || n > rids.len() {
        Seq::empty()
    } else if n == 1 {
        rids[0].rid
    } else {
        rid_join(rids, n - 1) + ";"@ + rids[n - 1].rid
    }
}

/// The section with one `a=rid:<id> recv` per rid and an `a=simulcast:recv` listing
/// them, where there are any.
pub open spec fn with_rids(m: MediaView, rids: Seq<RidView>) -> MediaView {
    if rids.len() == 0 {
        m
    } else {
        m.with_attrs(rid_attrs(rids, rids.len() as int)).with_attr(
            value_attr("simulcast"@, "recv "@ + rid_join(rids, rids.len() as int)),
        )
    }
}

/// The four `a=ssrc` lines of a media source.
pub open spec fn source_attrs(ssrc: u32, stream: Seq<char>, label: Seq<char>) -> Seq<AttributeView> {
    let s = decimal(ssrc as nat);
    seq![
        value_attr("ssrc"@, s + " cname:"@ + stream),
        value_attr("ssrc"@, s + " msid:"@ + stream + " "@ + label),
        value_attr("ssrc"@, s + " mslabel:"@ + stream),
        value_attr("ssrc"@, s + " label:"@ + label),
    ]
}

/// One `a=msid:<stream> <track>` per associated stream.
pub open spec fn msid_attrs(streams: Seq<String>, track: Seq<char>, n: int) -> Seq<AttributeView>
    decreases n,
{
    if n <= 0 || n > streams.len() {
        Seq::empty()
    } else {
        msid_attrs(streams, track, n - 1).push(value_attr("msid"@, streams[n - 1]@ + " "@ + track))
    }
}

/// The sender's lines: the media source of its track, and `a=msid` lines that name
/// the track id first advertised where there is one, else the track's own id.
pub open spec fn with_sender(m: MediaView, s: RTCRtpSender) -> MediaView {
    let streams = s.associated_media_stream_ids@;
    let m1 = match s.track {
        Some(t) => {
            let ms = m.with_attrs(source_attrs(s.ssrc, t.stream_id@, t.id@));
            if s.initial_track_id.is_none() {
                ms.with_attrs(msid_attrs(streams, t.id@, streams.len() as int))
            } else {
                ms
            }
        },
        None => m,
    };
    match s.initial_track_id {
        Some(id) => m1.with_attrs(msid_attrs(streams, id@, streams.len() as int)),
        None => m1,
    }
}

/// The direction to announce: the transceiver's own on an offer; on an answer, the
/// reverse of a one-way offer met with the transceiver's, `inactive` for an inactive
/// offer, and the transceiver's own otherwise.
pub open spec fn answer_direction(
    offered: Option<RTCRtpTransceiverDirection>,
    own: RTCRtpTransceiverDirection,
) -> RTCRtpTransceiverDirection {
    match offered {
        None => own,
        Some(o) => match o {
            RTCRtpTransceiverDirection::Sendonly | RTCRtpTransceiverDirection::Recvonly =>
                spec_intersect(spec_reverse(o), own),
            RTCRtpTransceiverDirection::Inactive => RTCRtpTransceiverDirection::Inactive,
            _ => own,
        },
    }
}

pub open spec fn transceiver_base(
    kind: RTPCodecType,
    mid: Seq<char>,
    role: ConnectionRole,
    ice: RTCIceParameters,
) -> MediaView {
    MediaView {
        media: codec_type_text(kind),
        port: 9,
        protos: seq!["UDP"@, "TLS"@, "RTP"@, "SAVPF"@],
        formats: Seq::empty(),
        connection: placeholder_connection(),
        attributes: seq![
            value_attr("setup"@, role_text(role)),
            value_attr("mid"@, mid),
            value_attr("ice-ufrag"@, ice.username_fragment@),
            value_attr("ice-pwd"@, ice.password@),
            property_attr("rtcp-mux"@),
            property_attr("rtcp-rsize"@),
        ],
    }
}

/// A section that rejects a media kind: port 0 and the single format `0`.
pub open spec fn rejected_section(kind: RTPCodecType) -> MediaView {
    MediaView {
        media: codec_type_text(kind),
        port: 0,
        protos: seq!["UDP"@, "TLS"@, "RTP"@, "SAVPF"@],
        formats: seq!["0"@],
        connection: placeholder_connection(),
        attributes: Seq::empty(),
    }
}

/// The section of a transceiver that has codecs.
pub open spec fn transceiver_section(
    t: RTCRtpTransceiver,
    mid: Seq<char>,
    rids: Seq<RidView>,
    offered: Option<RTCRtpTransceiverDirection>,
    role: ConnectionRole,
    ice: RTCIceParameters,
    fps: Seq<RTCDtlsFingerprint>,
    add_candidates: bool,
    addr: NetAddr,
    state: RTCIceGatheringState,
) -> MediaView {
    let m = with_sender(
        with_rids(with_codecs(transceiver_base(t.kind, mid, role, ice), t.codecs@, t.codecs@.len() as int), rids),
        t.sender,
    );
    with_candidates_if(
        m.with_attr(property_attr(direction_text(answer_direction(offered, t.direction))))
            .with_attrs(fingerprint_attrs(fps, fps.len() as int)),
        add_candidates,
        addr,
        state,
    )
}

/// Removes every leading repetition of `p`.
pub fn trim_start_matches(s: &str, p: &str) -> (r: String)
    ensures
        r@ == strip_all(s@, p@),
{
    let plen = p.unicode_len();
    let mut cur = String::from_str(s);
    if plen == 0 {
        return cur;
    }
    loop
        invariant
            plen == p@.len(),
            plen > 0,
            strip_all(cur@, p@) == strip_all(s@, p@),
        decreases cur@.len(),
    {
        let n = cur.as_str().unicode_len();
        if plen > n {
            return cur;
        }
        let head = cur.as_str().substring_char(0, plen);
        if !str_eq(head, p) {
            return cur;
        }
        let rest = String::from_str(cur.as_str().substring_char(plen, n));
        cur = rest;
    }
}

pub fn answer_direction_exec(
    offered: Option<RTCRtpTransceiverDirection>,
    own: RTCRtpTransceiverDirection,
) -> (r: RTCRtpTransceiverDirection)
    ensures
        r == answer_direction(offered, own),
{
    match offered {
        None => own,
        Some(o) => match o {
            RTCRtpTransceiverDirection::Sendonly | RTCRtpTransceiverDirection::Recvonly => o.reverse().intersect(own),
            RTCRtpTransceiverDirection::Inactive => RTCRtpTransceiverDirection::Inactive,
            _ => own,
        },
    }
}

fn codec_line(m: MediaDesc, c: &RTCRtpCodecParameters) -> (r: MediaDesc)
    ensures
        r@ == with_codec(m@, *c),
{
    let name = trim_start_matches(c.capability.mime_type.as_str(), "audio/");
    let name = trim_start_matches(name.as_str(), "video/");
    let pt = to_decimal(c.payload_type as u64);
    let mut rtpmap = pt.clone();
    rtpmap.append(" ");
    rtpmap.append(name.as_str());
    rtpmap.append("/");
    rtpmap.append(to_decimal(c.capability.clock_rate as u64).as_str());
    if c.capability.channels > 0 {
        rtpmap.append("/");
        rtpmap.append(to_decimal(c.capability.channels as u64).as_str());
    }
    let m = m.with_format(pt.clone());
    let m = m.with_value_attribute(text("rtpmap"), rtpmap);
    if c.capability.sdp_fmtp_line.as_str().unicode_len() > 0 {
        let mut fmtp = pt;
        fmtp.append(" ");
        fmtp.append(c.capability.sdp_fmtp_line.as_str());
        m.with_value_attribute(text("fmtp"), fmtp)
    } else {
        m
    }
}

fn feedback_lines(m: MediaDesc, pt: u8, fbs: &Vec<RTCPFeedback>) -> (r: MediaDesc)
    ensures
        r@ == m@.with_attrs(feedback_attrs(pt, fbs@, fbs@.len() as int)),
{
    let mut media = m;
    let mut i: usize = 0;
    proof {
        assert(m@.attributes =~= m@.attributes + Seq::<AttributeView>::empty());
    }
    while i < fbs.len()
        invariant
            i <= fbs.len(),
            media@ == m@.with_attrs(feedback_attrs(pt, fbs@, i as int)),
        decreases fbs.len() - i,
    {
        let f = &fbs[i];
        let mut v = to_decimal(pt as u64);
        v.append(" ");
        v.append(f.typ.as_str());
        v.append(" ");
        v.append(f.parameter.as_str());
        media = media.with_value_attribute(text("rtcp-fb"), v);
        proof {
            assert(media@.attributes =~= m@.attributes + feedback_attrs(pt, fbs@, i + 1));
        }
        i = i + 1;
    }
    media
}

pub(crate) fn codec_lines(m: MediaDesc, cs: &Vec<RTCRtpCodecParameters>) -> (r: MediaDesc)
    ensures
        r@ == with_codecs(m@, cs@, cs@.len() as int),
{
    let mut media = m;
    let mut i: usize = 0;
    while i < cs.len()
        invariant
            i <= cs.len(),
            media@ == with_codecs(m@, cs@, i as int),
        decreases cs.len() - i,
    {
        let c = &cs[i];
        media = codec_line(media, c);
        media = feedback_lines(media, c.payload_type, &c.capability.rtcp_feedback);
        i = i + 1;
    }
    media
}

pub(crate) fn rid_lines(m: MediaDesc, rids: &Vec<RidEntry>) -> (r: MediaDesc)
    ensures
        r@ == with_rids(m@, rids_view(rids@)),
{
    if rids.len() == 0 {
        return m;
    }
    let ghost rv = rids_view(rids@);
    let mut media = m;
    let mut joined = String::new();
    let mut i: usize = 0;
    proof {
        assert(m@.attributes =~= m@.attributes + Seq::<AttributeView>::empty());
    }
    while i < rids.len()
        invariant
            rv == rids_view(rids@),
            i <= rids.len(),
            media@ == m@.with_attrs(rid_attrs(rv, i as int)),
            joined@ == rid_join(rv, i as int),
        decreases rids.len() - i,
    {
        let mut v = rids[i].rid.clone();
        v.append(" recv");
        media = media.with_value_attribute(text("rid"), v);
        if i > 0 {
            joined.append(";");
        }
        joined.append(rids[i].rid.as_str());
        proof {
            assert(media@.attributes =~= m@.attributes + rid_attrs(rv, i + 1));
            if i == 0 {
                assert(joined@ =~= rid_join(rv, 1));
            }
        }
        i = i + 1;
    }
    let mut sim = text("recv ");
    sim.append(joined.as_str());
    media.with_value_attribute(text("simulcast"), sim)
}

fn msid_lines(m: MediaDesc, streams: &Vec<String>, track: &String) -> (r: MediaDesc)
    ensures
        r@ == m@.with_attrs(msid_attrs(streams@, track@, streams@.len() as int)),
{
    let mut media = m;
    let mut i: usize = 0;
    proof {
        assert(m@.attributes =~= m@.attributes + Seq::<AttributeView>::empty());
    }
    while i < streams.len()
        invariant
            i <= streams.len(),
            media@ == m@.with_attrs(msid_attrs(streams@, track@, i as int)),
        decreases streams.len() - i,
    {
        let mut v = streams[i].clone();
        v.append(" ");
        v.append(track.as_str());
        media = media.with_value_attribute(text("msid"), v);
        proof {
            assert(media@.attributes =~= m@.attributes + msid_attrs(streams@, track@, i + 1));
        }
        i = i + 1;
    }
    media
}

fn source_lines(m: MediaDesc, ssrc: u32, stream: &String, label: &String) -> (r: MediaDesc)
    ensures
        r@ == m@.with_attrs(source_attrs(ssrc, stream@, label@)),
{
    let s = to_decimal(ssrc as u64);
    let mut a = s.clone();
    a.append(" cname:");
    a.append(stream.as_str());
    let mut b = s.clone();
    b.append(" msid:");
    b.append(stream.as_str());
    b.append(" ");
    b.append(label.as_str());
    let mut c = s.clone();
    c.append(" mslabel:");
    c.append(stream.as_str());
    let mut e = s;
    e.append(" label:");
    e.append(label.as_str());
    let m1 = m.with_value_attribute(text("ssrc"), a);
    let m2 = m1.with_value_attribute(text("ssrc"), b);
    let m3 = m2.with_value_attribute(text("ssrc"), c);
    let m4 = m3.with_value_attribute(text("ssrc"), e);
    proof {
        assert(m4@.attributes =~= m@.attributes + source_attrs(ssrc, stream@, label@));
    }
    m4
}

pub(crate) fn sender_lines(m: MediaDesc, s: &RTCRtpSender) -> (r: MediaDesc)
    ensures
        r@ == with_sender(m@, *s),
{
    let mut media = m;
    match &s.track {
        Some(track) => {
            media = source_lines(media, s.ssrc, &track.stream_id, &track.id);
            if s.initial_track_id.is_none() {
                media = msid_lines(media, &s.associated_media_stream_ids, &track.id);
            }
        },
        None => {},
    }
    match &s.initial_track_id {
        Some(id) => msid_lines(media, &s.associated_media_stream_ids, id),
        None => media,
    }
}

} // verus!
