use vstd::prelude::*;
use crate::assemble::{
    origin_step, MediaSection, SectionView, first_error, populate_sdp, populated_attrs, sections_seq,
    sections_view,
};
use crate::description::{RTCSessionDescription, marshal_sdp};
use crate::error::NegotiationError;
use crate::matcher::{match_sections, matched_sections};
use crate::outside::{new_jsep_origin, sdp_text_of};
use crate::sdp_model::{Attr, AttributeView, Origin, SessionDesc, property_attr, text};
use crate::sdp_type::RTCSdpType;
use crate::text::str_eq;
use crate::transceiver::{
    ConnectionRole, DTLSRole, NetAddr, RTCCertificate, RTCIceParameters, RTCRtpSender,
    RTCRtpTransceiver,
};

verus! {

pub type SessionId = u64;

pub type EndpointId = u64;

/// The transport protocol of a network path.
#[derive(Debug, Clone, Copy, PartialEq, Eq, Structural)]
pub enum Protocol {
    UDP,
    TCP,
}

/// A network path: local address, peer address and protocol.
#[derive(Debug, Clone)]
pub struct FourTuple {
    pub local_addr: NetAddr,
    pub peer_addr: NetAddr,
    pub protocol: Protocol,
}

pub struct FourTupleView {
    pub local_ip: Seq<char>,
    pub local_port: u16,
    pub peer_ip: Seq<char>,
    pub peer_port: u16,
    pub protocol: Protocol,
}

impl View for FourTuple {
    type V = FourTupleView;

    open spec fn view(&self) -> FourTupleView {
        FourTupleView {
            local_ip: self.local_addr.ip@,
            local_port: self.local_addr.port,
            peer_ip: self.peer_addr.ip@,
            peer_port: self.peer_addr.port,
            protocol: self.protocol,
        }
    }
}

impl FourTuple {
    pub fn same_path(&self, other: &FourTuple) -> (r: bool)
        ensures
            r == (self@ == other@),
    {
        self.local_addr.port == other.local_addr.port
            && self.peer_addr.port == other.peer_addr.port
            && self.protocol == other.protocol
            && str_eq(self.local_addr.ip.as_str(), other.local_addr.ip.as_str())
            && str_eq(self.peer_addr.ip.as_str(), other.peer_addr.ip.as_str())
    }
}

/// The ICE candidate that a peer's traffic arrived for: the session and the endpoint
/// (from the peer's ICE username fragment) it belongs to.
#[derive(Debug, Clone, Copy)]
pub struct Candidate {
    pub session_id: SessionId,
    pub endpoint_id: EndpointId,
}

/// One network path of an endpoint, with the candidate that produced it; its endpoint
/// is referred to by id, not owned.
#[derive(Debug, Clone)]
pub struct Transport {
    pub four_tuple: FourTuple,
    pub endpoint_id: EndpointId,
    pub candidate: Candidate,
}

/// One remote peer and its paths; its session is referred to by id, not owned.
#[derive(Debug, Clone)]
pub struct Endpoint {
    pub session_id: SessionId,
    pub endpoint_id: EndpointId,
    pub transports: Vec<Transport>,
}

pub struct TransportView {
    pub path: FourTupleView,
    pub endpoint_id: EndpointId,
    pub candidate: Candidate,
}

impl View for Transport {
    type V = TransportView;

    open spec fn view(&self) -> TransportView {
        TransportView { path: self.four_tuple@, endpoint_id: self.endpoint_id, candidate: self.candidate }
    }
}

pub struct EndpointView {
    pub id: EndpointId,
    pub session_id: SessionId,
    pub transports: Seq<TransportView>,
}

impl View for Endpoint {
    type V = EndpointView;

    open spec fn view(&self) -> EndpointView {
        EndpointView {
            id: self.endpoint_id,
            session_id: self.session_id,
            transports: self.transports@.map_values(|t: Transport| t@),
        }
    }
}

pub open spec fn endpoints_view(es: Seq<Endpoint>) -> Seq<EndpointView> {
    es.map_values(|e: Endpoint| e@)
}

/// The position of the first endpoint at or after `from` with id `id`.
pub open spec fn find_endpoint(es: Seq<EndpointView>, id: EndpointId, from: int) -> Option<int>
    decreases es.len() - from,
{
    if from < 0 || from >= es.len() {
        None
    } else if es[from].id == id {
        Some(from)
    } else {
        find_endpoint(es, id, from + 1)
    }
}

/// The position of the first transport at or after `from` on path `p`.
pub open spec fn find_path(ts: Seq<TransportView>, p: FourTupleView, from: int) -> Option<int>
    decreases ts.len() - from,
{
    if from < 0 || from >= ts.len() {
        None
    } else if ts[from].path == p {
        Some(from)
    } else {
        find_path(ts, p, from + 1)
    }
}

/// The registry of session `session_id` after a packet for `c` came over path `p`, and
/// whether the endpoint was known. A known path changes nothing. A new path of a
/// known endpoint adds a transport to it. An unknown endpoint is added, owned by the
/// session, with that one transport. A new transport holds `c` and refers back to its
/// endpoint by id.
pub open spec fn register(
    es: Seq<EndpointView>,
    session_id: SessionId,
    c: Candidate,
    p: FourTupleView,
) -> (bool, Seq<EndpointView>) {
    let id = c.endpoint_id;
    let t = TransportView { path: p, endpoint_id: id, candidate: c };
    match find_endpoint(es, id, 0) {
        Some(i) => match find_path(es[i].transports, p, 0) {
            Some(_) => (true, es),
            None => (true, es.update(i, EndpointView { transports: es[i].transports.push(t), ..es[i] })),
        },
        None => (false, es.push(EndpointView { id, session_id, transports: seq![t] })),
    }
}

/// A signaling context: its id, the local address announced in candidates, its
/// certificates (the first one's fingerprints are used), its endpoints, and the
/// origin its descriptions carry.
#[derive(Debug)]
pub struct Session {
    session_id: SessionId,
    local_addr: NetAddr,
    certificates: Vec<RTCCertificate>,
    endpoints: Vec<Endpoint>,
    origin: Option<Origin>,
}

/// Whether one of the first `n` sections stands for transceiver `j`.
pub open spec fn refers_to(ss: Seq<SectionView>, j: int, n: int) -> bool
    decreases n,
{
    if n <= 0 || n > ss.len() {
        false
    } else {
        refers_to(ss, j, n - 1) || match ss[n - 1].transceiver {
            Some(x) => x as int == j,
            None => false,
        }
    }
}

/// A transceiver after it took part in a negotiation: its sender is negotiated, and
/// its first advertised track id is latched to the track it has, if none was yet.
pub open spec fn after_negotiation(t: RTCRtpTransceiver) -> RTCRtpTransceiver {
    let s = t.sender;
    let initial = if s.initial_track_id.is_none() && s.track.is_some() {
        Some(s.track.unwrap().id)
    } else {
        s.initial_track_id
    };
    RTCRtpTransceiver {
        sender: RTCRtpSender { negotiated: true, initial_track_id: initial, ..s },
        ..t
    }
}

/// The transceivers after a negotiation over the first `n` sections.
pub open spec fn negotiated_all(ts: Seq<RTCRtpTransceiver>, ss: Seq<SectionView>, n: int) -> Seq<RTCRtpTransceiver> {
    Seq::new(ts.len(), |j: int| if refers_to(ss, j, n) { after_negotiation(ts[j]) } else { ts[j] })
}

fn negotiate_one(ts: &mut Vec<RTCRtpTransceiver>, j: usize)
    requires
        j < old(ts).len(),
    ensures
        final(ts)@ == old(ts)@.update(j as int, after_negotiation(old(ts)@[j as int])),
{
    let mut t = ts.remove(j);
    t.sender.negotiated = true;
    if t.sender.initial_track_id.is_none() {
        match &t.sender.track {
            Some(track) => {
                t.sender.initial_track_id = Some(track.id.clone());
            },
            None => {},
        }
    }
    ts.insert(j, t);
    proof {
        assert(ts@ =~= old(ts)@.update(j as int, after_negotiation(old(ts)@[j as int])));
    }
}

/// Marks every transceiver that a section stands for as negotiated.
fn mark_negotiated(ts: &mut Vec<RTCRtpTransceiver>, sections: &Vec<MediaSection>)
    ensures
        final(ts)@ == negotiated_all(old(ts)@, sections_seq(sections@), sections@.len() as int),
{
    let ghost ss = sections_seq(sections@);
    let ghost t0 = ts@;
    let mut k: usize = 0;
    proof {
        assert(ts@ =~= negotiated_all(t0, ss, 0));
    }
    while k < sections.len()
        invariant
            ss == sections_seq(sections@),
            ss.len() == sections@.len(),
            t0 == old(ts)@,
            ts@.len() == t0.len(),
            k <= sections.len(),
            ts@ == negotiated_all(t0, ss, k as int),
        decreases sections.len() - k,
    {
        match sections[k].transceiver {
            Some(j) => if j < ts.len() {
                assert(sections@[k as int].transceiver == Some(j));
                negotiate_one(ts, j);
                proof {
                    assert(after_negotiation(after_negotiation(t0[j as int])) == after_negotiation(t0[j as int]));
                    assert(ts@ =~= negotiated_all(t0, ss, k + 1));
                }
            } else {
                proof {
                    assert(ts@ =~= negotiated_all(t0, ss, k + 1));
                }
            },
            None => {
                proof {
                    assert(ts@ =~= negotiated_all(t0, ss, k + 1));
                }
            },
        }
        k = k + 1;
    }
}

pub open spec fn identity_attrs(use_identity: bool) -> Seq<AttributeView> {
    if use_identity {
        seq![property_attr("identity"@)]
    } else {
        Seq::empty()
    }
}

/// Why a negotiation fails, if it does: the remote description is not parsed; its
/// sections do not match; the session has no certificate; or a section cannot be built.
pub open spec fn negotiation_error(
    remote: RTCSessionDescription,
    ts: Seq<RTCRtpTransceiver>,
    include_unmatched: bool,
    certificates: Seq<RTCCertificate>,
) -> Option<NegotiationError> {
    match remote.parsed {
        None => Some(NegotiationError::RemoteDescriptionNotParsed),
        Some(p) => match matched_sections(p@.media_descriptions, ts, include_unmatched) {
            Err(e) => Some(e),
            Ok(ss) => if certificates.len() == 0 {
                Some(NegotiationError::NonCertificate)
            } else {
                first_error(ss, ts, 0)
            },
        },
    }
}

/// The sections of a negotiation that does not fail.
pub open spec fn negotiated_sections(
    remote: RTCSessionDescription,
    ts: Seq<RTCRtpTransceiver>,
    include_unmatched: bool,
) -> Seq<SectionView> {
    matched_sections(remote.parsed.unwrap()@.media_descriptions, ts, include_unmatched).unwrap()
}

impl Session {
    pub fn new(session_id: SessionId, local_addr: NetAddr, certificates: Vec<RTCCertificate>) -> (r: Session)
        ensures
            r.id() == session_id,
            r.local_addr_spec() == local_addr,
            r.certificates_spec() == certificates@,
            r.endpoints_spec() == Seq::<EndpointView>::empty(),
            r.origin_spec() == None::<Origin>,
    {
        let r = Session {
            session_id,
            local_addr,
            certificates,
            endpoints: Vec::new(),
            origin: None,
        };
        proof {
            assert(endpoints_view(r.endpoints@) =~= Seq::<EndpointView>::empty());
        }
        r
    }

    pub closed spec fn id(&self) -> SessionId {
        self.session_id
    }

    pub closed spec fn local_addr_spec(&self) -> NetAddr {
        self.local_addr
    }

    pub closed spec fn certificates_spec(&self) -> Seq<RTCCertificate> {
        self.certificates@
    }

    pub closed spec fn endpoints_spec(&self) -> Seq<EndpointView> {
        endpoints_view(self.endpoints@)
    }

    pub closed spec fn origin_spec(&self) -> Option<Origin> {
        self.origin
    }

    pub fn session_id(&self) -> (r: u64)
        ensures
            r == self.id(),
    {
        self.session_id
    }

    /// The endpoints, in the order they were first seen.
    pub fn endpoints(&self) -> (r: &Vec<Endpoint>)
        ensures
            endpoints_view(r@) == self.endpoints_spec(),
    {
        &self.endpoints
    }

    /// The stored origin of this session's descriptions, once one was stamped.
    pub fn origin(&self) -> (r: Option<Origin>)
        ensures
            r == self.origin_spec(),
    {
        self.origin
    }

    /// The endpoint with id `endpoint_id`, if there is one.
    pub fn get_endpoint(&self, endpoint_id: EndpointId) -> (r: Option<&Endpoint>)
        ensures
            match find_endpoint(self.endpoints_spec(), endpoint_id, 0) {
                Some(i) => r.is_some() && r.unwrap()@ == self.endpoints_spec()[i],
                None => r.is_none(),
            },
    {
        let ghost ev = endpoints_view(self.endpoints@);
        let mut i: usize = 0;
        while i < self.endpoints.len()
            invariant
                ev == endpoints_view(self.endpoints@),
                i <= self.endpoints.len(),
                find_endpoint(ev, endpoint_id, 0) == find_endpoint(ev, endpoint_id, i as int),
            decreases self.endpoints.len() - i,
        {
            if self.endpoints[i].endpoint_id == endpoint_id {
                return Some(&self.endpoints[i]);
            }
            i = i + 1;
        }
        None
    }

    /// Records that endpoint `candidate.endpoint_id` was seen on `four_tuple`. Returns
    /// whether the endpoint was known, and the positions of the endpoint and of its
    /// transport for that path: the ones registered before where there are, else the
    /// ones just added.
    pub fn add_endpoint(&mut self, candidate: &Candidate, four_tuple: FourTuple) -> (r: (bool, usize, usize))
        ensures
            (r.0, final(self).endpoints_spec()) == register(old(self).endpoints_spec(), old(self).id(), *candidate, four_tuple@),
            find_endpoint(final(self).endpoints_spec(), candidate.endpoint_id, 0) == Some(r.1 as int),
            find_path(final(self).endpoints_spec()[r.1 as int].transports, four_tuple@, 0) == Some(r.2 as int),
            final(self).id() == old(self).id(),
            final(self).local_addr_spec() == old(self).local_addr_spec(),
            final(self).certificates_spec() == old(self).certificates_spec(),
            final(self).origin_spec() == old(self).origin_spec(),
    {
        let endpoint_id = candidate.endpoint_id;
        let ghost ev = endpoints_view(self.endpoints@);
        let ghost p = four_tuple@;
        let ghost t = TransportView { path: p, endpoint_id, candidate: *candidate };
        let mut i: usize = 0;
        while i < self.endpoints.len()
            invariant
                ev == endpoints_view(self.endpoints@),
                ev == endpoints_view(old(self).endpoints@),
                p == four_tuple@,
                t == (TransportView { path: p, endpoint_id, candidate: *candidate }),
                endpoint_id == candidate.endpoint_id,
                self.session_id == old(self).session_id,
                self.local_addr == old(self).local_addr,
                self.certificates == old(self).certificates,
                self.origin == old(self).origin,
                i <= self.endpoints.len(),
                find_endpoint(ev, endpoint_id, 0) == find_endpoint(ev, endpoint_id, i as int),
            decreases self.endpoints.len() - i,
        {
            if self.endpoints[i].endpoint_id == endpoint_id {
                assert(find_endpoint(ev, endpoint_id, i as int) == Some(i as int));
                let ghost pv = ev[i as int].transports;
                let n = self.endpoints[i].transports.len();
                let mut k: usize = 0;
                while k < n
                    invariant
                        ev == endpoints_view(self.endpoints@),
                        ev == endpoints_view(old(self).endpoints@),
                        p == four_tuple@,
                        t == (TransportView { path: p, endpoint_id, candidate: *candidate }),
                        endpoint_id == candidate.endpoint_id,
                        self.session_id == old(self).session_id,
                        self.local_addr == old(self).local_addr,
                        self.certificates == old(self).certificates,
                        self.origin == old(self).origin,
                        find_endpoint(ev, endpoint_id, 0) == Some(i as int),
                        ev[i as int].id == endpoint_id,
                        i < self.endpoints.len(),
                        n == self.endpoints@[i as int].transports.len(),
                        pv == ev[i as int].transports,
                        pv.len() == n,
                        k <= n,
                        find_path(pv, p, 0) == find_path(pv, p, k as int),
                    decreases n - k,
                {
                    let same = self.endpoints[i].transports[k].four_tuple.same_path(&four_tuple);
                    if same {
                        assert(pv[k as int] == self.endpoints@[i as int].transports@[k as int]@);
                        assert(find_path(pv, p, k as int) == Some(k as int));
                        return (true, i, k);
                    }
                    k = k + 1;
                }
                let ghost before = self.endpoints@;
                let mut e = self.endpoints.remove(i);
                let ghost e0 = e;
                e.transports.push(Transport { four_tuple, endpoint_id, candidate: *candidate });
                let ghost ne = EndpointView { transports: pv.push(t), ..ev[i as int] };
                proof {
                    assert(e0@ == ev[i as int]);
                    assert(e@.transports =~= pv.push(t));
                    assert(e@ == ne);
                }
                self.endpoints.insert(i, e);
                proof {
                    assert(self.endpoints@ =~= before.update(i as int, e));
                    assert(endpoints_view(self.endpoints@) =~= ev.update(i as int, ne));
                    lemma_find_endpoint_same_ids(ev, ev.update(i as int, ne), endpoint_id, 0);
                    lemma_find_path_push(pv, t, 0);
                }
                return (true, i, n);
            }
            i = i + 1;
        }
        let len = self.endpoints.len();
        let mut transports: Vec<Transport> = Vec::new();
        transports.push(Transport { four_tuple, endpoint_id, candidate: *candidate });
        self.endpoints.push(Endpoint { session_id: self.session_id, endpoint_id, transports });
        let ghost ne = EndpointView { id: endpoint_id, session_id: self.session_id, transports: seq![t] };
        proof {
            assert(endpoints_view(self.endpoints@)[len as int].transports =~= seq![t]);
            assert(endpoints_view(self.endpoints@) =~= ev.push(ne));
            lemma_find_endpoint_push(ev, ne, 0);
            assert(find_path(seq![t], p, 0) == Some(0int));
        }
        (false, len, 0)
    }

    /// Generates a description that answers (or, with `include_unmatched`, re-offers
    /// against) `remote_description`: its sections are matched to `local_transceivers`
    /// in the remote order and built with this session's first certificate. On success
    /// every transceiver that a section stands for is marked negotiated.
    pub fn generate_matched_sdp(
        &self,
        remote_description: &RTCSessionDescription,
        local_ice_params: &RTCIceParameters,
        local_transceivers: &mut Vec<RTCRtpTransceiver>,
        use_identity: bool,
        include_unmatched: bool,
        connection_role: ConnectionRole,
    ) -> (r: Result<SessionDesc, NegotiationError>)
        ensures
            match negotiation_error(*remote_description, old(local_transceivers)@, include_unmatched, self.certificates_spec()) {
                Some(e) => r == Err::<SessionDesc, NegotiationError>(e) && final(local_transceivers)@ == old(local_transceivers)@,
                None => {
                    let ss = negotiated_sections(*remote_description, old(local_transceivers)@, include_unmatched);
                    let fps = self.certificates_spec()[0].fingerprints@;
                    &&& r.is_ok()
                    &&& r.unwrap()@.media_descriptions == sections_view(
                        ss,
                        old(local_transceivers)@,
                        ss.len() as int,
                        connection_role,
                        *local_ice_params,
                        fps,
                        self.local_addr_spec(),
                    )
                    &&& r.unwrap()@.attributes == identity_attrs(use_identity) + populated_attrs(
                        ss,
                        old(local_transceivers)@,
                        fps,
                        true,
                    )
                    &&& r.unwrap()@.origin.session_id < 0x8000_0000_0000_0000u64
                    &&& final(local_transceivers)@ == negotiated_all(old(local_transceivers)@, ss, ss.len() as int)
                },
            },
    {
        let parsed = match &remote_description.parsed {
            Some(p) => p,
            None => return Err(NegotiationError::RemoteDescriptionNotParsed),
        };
        let media_sections = match_sections(&parsed.media_descriptions, local_transceivers, include_unmatched)?;
        if self.certificates.len() == 0 {
            return Err(NegotiationError::NonCertificate);
        }
        let dtls_fingerprints = &self.certificates[0].fingerprints;
        let mut attributes: Vec<Attr> = Vec::new();
        if use_identity {
            attributes.push(Attr { key: text("identity"), value: None });
        }
        proof {
            assert(crate::sdp_model::attrs_view(attributes@) =~= identity_attrs(use_identity));
        }
        let d = SessionDesc { origin: new_jsep_origin(), attributes, media_descriptions: Vec::new() };
        proof {
            assert(d@.media_descriptions =~= Seq::<crate::sdp_model::MediaView>::empty());
            assert(d@.media_descriptions + sections_view(
                sections_seq(media_sections@),
                local_transceivers@,
                media_sections@.len() as int,
                connection_role,
                *local_ice_params,
                dtls_fingerprints@,
                self.local_addr,
            ) =~= sections_view(
                sections_seq(media_sections@),
                local_transceivers@,
                media_sections@.len() as int,
                connection_role,
                *local_ice_params,
                dtls_fingerprints@,
                self.local_addr,
            ));
        }
        let d = populate_sdp(
            d,
            dtls_fingerprints,
            &self.local_addr,
            local_ice_params,
            connection_role,
            &media_sections,
            local_transceivers,
            true,
        )?;
        mark_negotiated(local_transceivers, &media_sections);
        Ok(d)
    }

    /// Answers `remote_description` with `local_transceivers`, as the DTLS server, and
    /// stamps the answer with this session's origin.
    pub fn create_pending_answer(
        &mut self,
        _endpoint_id: EndpointId,
        remote_description: &RTCSessionDescription,
        local_ice_params: &RTCIceParameters,
        local_transceivers: &mut Vec<RTCRtpTransceiver>,
    ) -> (r: Result<RTCSessionDescription, NegotiationError>)
        ensures
            match negotiation_error(*remote_description, old(local_transceivers)@, false, old(self).certificates_spec()) {
                Some(e) => r == Err::<RTCSessionDescription, NegotiationError>(e)
                    && final(local_transceivers)@ == old(local_transceivers)@
                    && final(self).origin_spec() == old(self).origin_spec(),
                None => {
                    let ss = negotiated_sections(*remote_description, old(local_transceivers)@, false);
                    let fps = old(self).certificates_spec()[0].fingerprints@;
                    &&& r.is_ok()
                    &&& r.unwrap().sdp_type == RTCSdpType::Answer
                    &&& r.unwrap().parsed.is_some()
                    &&& r.unwrap().parsed.unwrap()@.media_descriptions == sections_view(
                        ss,
                        old(local_transceivers)@,
                        ss.len() as int,
                        ConnectionRole::Passive,
                        *local_ice_params,
                        fps,
                        old(self).local_addr_spec(),
                    )
                    &&& r.unwrap().parsed.unwrap()@.attributes == populated_attrs(ss, old(local_transceivers)@, fps, true)
                    &&& r.unwrap().sdp@ == sdp_text_of(r.unwrap().parsed.unwrap()@)
                    &&& old(self).origin_spec().is_some() ==>
                        r.unwrap().parsed.unwrap().origin == origin_step(old(self).origin_spec(), r.unwrap().parsed.unwrap().origin).1
                    &&& final(self).origin_spec() == Some(r.unwrap().parsed.unwrap().origin)
                    &&& final(local_transceivers)@ == negotiated_all(old(local_transceivers)@, ss, ss.len() as int)
                },
            },
            final(self).id() == old(self).id(),
            final(self).endpoints_spec() == old(self).endpoints_spec(),
            final(self).certificates_spec() == old(self).certificates_spec(),
            final(self).local_addr_spec() == old(self).local_addr_spec(),
    {
        let mut d = self.generate_matched_sdp(
            remote_description,
            local_ice_params,
            local_transceivers,
            false,
            false,
            DTLSRole::Server.to_connection_role(),
        )?;
        proof {
            assert(identity_attrs(false) + populated_attrs(
                negotiated_sections(*remote_description, old(local_transceivers)@, false),
                old(local_transceivers)@,
                self.certificates@[0].fingerprints@,
                true,
            ) =~= populated_attrs(
                negotiated_sections(*remote_description, old(local_transceivers)@, false),
                old(local_transceivers)@,
                self.certificates@[0].fingerprints@,
                true,
            ));
        }
        crate::assemble::update_sdp_origin(&mut self.origin, &mut d);
        let sdp = marshal_sdp(&d);
        Ok(RTCSessionDescription { sdp_type: RTCSdpType::Answer, sdp, parsed: Some(d) })
    }
}

proof fn lemma_find_endpoint_same_ids(a: Seq<EndpointView>, b: Seq<EndpointView>, id: EndpointId, from: int)
    requires
        a.len() == b.len(),
        forall|j: int| 0 <= j < a.len() ==> a[j].id == b[j].id,
    ensures
        find_endpoint(a, id, from) == find_endpoint(b, id, from),
    decreases a.len() - from,
{
    if 0 <= from < a.len() {
        lemma_find_endpoint_same_ids(a, b, id, from + 1);
    }
}

proof fn lemma_find_endpoint_push(es: Seq<EndpointView>, x: EndpointView, from: int)
    requires
        0 <= from <= es.len(),
        find_endpoint(es, x.id, from).is_none(),
    ensures
        find_endpoint(es.push(x), x.id, from) == Some(es.len() as int),
    decreases es.len() - from,
{
    if from < es.len() {
        assert(es.push(x)[from] == es[from]);
        lemma_find_endpoint_push(es, x, from + 1);
    }
}

proof fn lemma_find_path_push(ts: Seq<TransportView>, x: TransportView, from: int)
    requires
        0 <= from <= ts.len(),
        find_path(ts, x.path, from).is_none(),
    ensures
        find_path(ts.push(x), x.path, from) == Some(ts.len() as int),
    decreases ts.len() - from,
{
    if from < ts.len() {
        assert(ts.push(x)[from] == ts[from]);
        lemma_find_path_push(ts, x, from + 1);
    }
}

proof fn lemma_find_endpoint_is_match(es: Seq<EndpointView>, id: EndpointId, from: int)
    ensures
        find_endpoint(es, id, from) matches Some(i) ==> 0 <= i < es.len() && es[i].id == id,
    decreases es.len() - from,
{
    if 0 <= from < es.len() && es[from].id != id {
        lemma_find_endpoint_is_match(es, id, from + 1);
    }
}

/// After a registration, the endpoint is found with a transport on that path.
proof fn lemma_register_finds(es: Seq<EndpointView>, sid: SessionId, c: Candidate, p: FourTupleView)
    ensures
        ({
            let es1 = register(es, sid, c, p).1;
            &&& find_endpoint(es1, c.endpoint_id, 0).is_some()
            &&& find_path(es1[find_endpoint(es1, c.endpoint_id, 0).unwrap()].transports, p, 0).is_some()
        }),
{
    let id = c.endpoint_id;
    let t = TransportView { path: p, endpoint_id: id, candidate: c };
    let es1 = register(es, sid, c, p).1;
    match find_endpoint(es, id, 0) {
        Some(i) => {
            lemma_find_endpoint_is_match(es, id, 0);
            lemma_find_endpoint_same_ids(es, es1, id, 0);
            if find_path(es[i].transports, p, 0).is_none() {
                lemma_find_path_push(es[i].transports, t, 0);
            }
        },
        None => {
            lemma_find_endpoint_push(es, EndpointView { id, session_id: sid, transports: seq![t] }, 0);
            assert(find_path(seq![t], p, 0) == Some(0int));
        },
    }
}

/// Registering an endpoint again on a path it was registered on changes nothing and
/// reports the endpoint as known, whatever candidate of that endpoint comes: no
/// transport is ever duplicated, and the same endpoint and transport are found.
/// Where the endpoint was known before, the first registration reports it as known too.
pub proof fn lemma_register_twice(
    es: Seq<EndpointView>,
    sid: SessionId,
    c: Candidate,
    c2: Candidate,
    p: FourTupleView,
)
    requires
        c2.endpoint_id == c.endpoint_id,
    ensures
        register(register(es, sid, c, p).1, sid, c2, p) == (true, register(es, sid, c, p).1),
        find_endpoint(es, c.endpoint_id, 0).is_some() ==> register(es, sid, c, p).0,
{
    lemma_register_finds(es, sid, c, p);
}

/// An endpoint seen on two different paths is registered once, owned by the session,
/// and holds two transports, in the order seen, each with its candidate and referring
/// back to the endpoint; the second registration reports it as known.
pub proof fn lemma_register_two_paths(
    es: Seq<EndpointView>,
    sid: SessionId,
    c1: Candidate,
    c2: Candidate,
    p1: FourTupleView,
    p2: FourTupleView,
)
    requires
        find_endpoint(es, c1.endpoint_id, 0).is_none(),
        c2.endpoint_id == c1.endpoint_id,
        p1 != p2,
    ensures
        ({
            let id = c1.endpoint_id;
            let es1 = register(es, sid, c1, p1).1;
            let (known, es2) = register(es1, sid, c2, p2);
            &&& known
            &&& es2.len() == es.len() + 1
            &&& es2[es.len() as int] == EndpointView {
                id,
                session_id: sid,
                transports: seq![
                    TransportView { path: p1, endpoint_id: id, candidate: c1 },
                    TransportView { path: p2, endpoint_id: id, candidate: c2 },
                ],
            }
        }),
{
    let id = c1.endpoint_id;
    let t1 = TransportView { path: p1, endpoint_id: id, candidate: c1 };
    let t2 = TransportView { path: p2, endpoint_id: id, candidate: c2 };
    let x = EndpointView { id, session_id: sid, transports: seq![t1] };
    lemma_find_endpoint_push(es, x, 0);
    assert(find_path(seq![t1], p2, 0) == find_path(seq![t1], p2, 1));
    assert(seq![t1].push(t2) =~= seq![t1, t2]);
}

} // verus!
