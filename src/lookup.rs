use vstd::prelude::*;
use crate::direction::{RTCRtpTransceiverDirection, direction_of_text};
use crate::sdp_model::{Attr, AttributeView, MediaDesc, attrs_view};
use crate::text::str_eq;

verus! {

/// The index of the first attribute at or after `from` whose key is `k`.
pub open spec fn find_key(attrs: Seq<AttributeView>, k: Seq<char>, from: int) -> Option<int>
    decreases attrs.len() - from,
{
    if from < 0 || from >= attrs.len() {
        None
    } else if attrs[from].key == k {
        Some(from)
    } else {
        find_key(attrs, k, from + 1)
    }
}

/// The value of a section's first `mid` attribute; none where there is no such
/// attribute or it has no value.
pub open spec fn mid_value(attrs: Seq<AttributeView>) -> Option<Seq<char>> {
    match find_key(attrs, "mid"@, 0) {
        Some(i) => attrs[i].value,
        None => None,
    }
}

/// The direction named by the first attribute at or after `from` whose key is a
/// direction name, or `Unspecified`.
pub open spec fn peer_direction(attrs: Seq<AttributeView>, from: int) -> RTCRtpTransceiverDirection
    decreases attrs.len() - from,
{
    if from < 0 || from >= attrs.len() {
        RTCRtpTransceiverDirection::Unspecified
    } else if direction_of_text(attrs[from].key) != RTCRtpTransceiverDirection::Unspecified {
        direction_of_text(attrs[from].key)
    } else {
        peer_direction(attrs, from + 1)
    }
}

/// The end of the first space-separated token of `s` that starts at or before `i`.
pub open spec fn token_end(s: Seq<char>, i: int) -> int
    decreases s.len() - i,
{
    if i < 0 || i >= s.len() {
        s.len() as int
    } else if s[i] == ' ' {
        i
    } else {
        token_end(s, i + 1)
    }
}

/// The text before the first space.
pub open spec fn first_token(s: Seq<char>) -> Seq<char> {
    s.subrange(0, token_end(s, 0))
}

/// A simulcast stream id with the raw value of its `a=rid` attribute.
#[derive(Debug, Clone)]
pub struct RidEntry {
    pub rid: String,
    pub value: String,
}

pub struct RidView {
    pub rid: Seq<char>,
    pub value: Seq<char>,
}

impl View for RidEntry {
    type V = RidView;

    open spec fn view(&self) -> RidView {
        RidView { rid: self.rid@, value: self.value@ }
    }
}

pub open spec fn rids_view(r: Seq<RidEntry>) -> Seq<RidView> {
    r.map_values(|e: RidEntry| e@)
}

/// The position of the entry for `rid`, if there is one.
pub open spec fn rid_position(m: Seq<RidView>, rid: Seq<char>, from: int) -> Option<int>
    decreases m.len() - from,
{
    if from < 0 || from >= m.len() {
        None
    } else if m[from].rid == rid {
        Some(from)
    } else {
        rid_position(m, rid, from + 1)
    }
}

/// Records `value` under `rid`: the entry keeps its place if there is one, else a
/// new entry comes last.
pub open spec fn rid_upsert(m: Seq<RidView>, rid: Seq<char>, value: Seq<char>) -> Seq<RidView> {
    match rid_position(m, rid, 0) {
        Some(i) => m.update(i, RidView { rid, value }),
        None => m.push(RidView { rid, value }),
    }
}

/// The rid map of the first `n` attributes: each `a=rid:<id> ...` maps its first token
/// to its whole value, the last such attribute winning, in order of first appearance.
pub open spec fn rid_map(attrs: Seq<AttributeView>, n: int) -> Seq<RidView>
    decreases n,
{
    if n <= 0 || n > attrs.len() {
        Seq::empty()
    } else {
        let prev = rid_map(attrs, n - 1);
        let a = attrs[n - 1];
        if a.key == "rid"@ && a.value.is_some() {
            rid_upsert(prev, first_token(a.value.unwrap()), a.value.unwrap())
        } else {
            prev
        }
    }
}

/// The value of the first `mid` attribute of a media section.
pub fn get_mid_value(media: &MediaDesc) -> (r: Option<String>)
    ensures
        crate::sdp_model::opt_view(r) == mid_value(media@.attributes),
{
    let ghost av = media@.attributes;
    let mut i: usize = 0;
    while i < media.attributes.len()
        invariant
            av == attrs_view(media.attributes@),
            i <= media.attributes.len(),
            find_key(av, "mid"@, 0) == find_key(av, "mid"@, i as int),
        decreases media.attributes.len() - i,
    {
        let a = &media.attributes[i];
        if str_eq(a.key.as_str(), "mid") {
            return a.value.clone();
        }
        i = i + 1;
    }
    None
}

/// The direction the peer gave a media section: its first attribute that names one.
pub fn get_peer_direction(media: &MediaDesc) -> (r: RTCRtpTransceiverDirection)
    ensures
        r == peer_direction(media@.attributes, 0),
{
    let ghost av = media@.attributes;
    let mut i: usize = 0;
    while i < media.attributes.len()
        invariant
            av == attrs_view(media.attributes@),
            i <= media.attributes.len(),
            peer_direction(av, 0) == peer_direction(av, i as int),
        decreases media.attributes.len() - i,
    {
        let direction = RTCRtpTransceiverDirection::from_str_name(media.attributes[i].key.as_str());
        if direction != RTCRtpTransceiverDirection::Unspecified {
            return direction;
        }
        i = i + 1;
    }
    RTCRtpTransceiverDirection::Unspecified
}

/// The text before the first space.
pub fn first_word(s: &str) -> (r: String)
    ensures
        r@ == first_token(s@),
{
    let n = s.unicode_len();
    let mut i: usize = 0;
    while i < n && s.get_char(i) != ' '
        invariant
            n == s@.len(),
            i <= n,
            token_end(s@, 0) == token_end(s@, i as int),
        decreases n - i,
    {
        i = i + 1;
    }
    assert(token_end(s@, i as int) == i as int);
    String::from_str(s.substring_char(0, i))
}

/// Records `value` under `rid` in a rid map.
pub fn insert_rid(m: &mut Vec<RidEntry>, rid: String, value: String)
    ensures
        rids_view(final(m)@) == rid_upsert(rids_view(old(m)@), rid@, value@),
{
    let ghost mv = rids_view(m@);
    let mut i: usize = 0;
    while i < m.len()
        invariant
            mv == rids_view(m@),
            m@ == old(m)@,
            i <= m.len(),
            rid_position(mv, rid@, 0) == rid_position(mv, rid@, i as int),
        decreases m.len() - i,
    {
        if str_eq(m[i].rid.as_str(), rid.as_str()) {
            assert(mv[i as int].rid == rid@);
            assert(rid_position(mv, rid@, i as int) == Some(i as int));
            let ghost rv = RidView { rid: rid@, value: value@ };
            m.set(i, RidEntry { rid, value });
            assert(rids_view(m@) =~= mv.update(i as int, rv));
            return;
        }
        i = i + 1;
    }
    m.push(RidEntry { rid, value });
    proof {
        assert(rids_view(m@) =~= mv.push(RidView { rid: rid@, value: value@ }));
    }
}

/// The simulcast rids of a media section, each with its raw attribute value.
pub fn get_rids(media: &MediaDesc) -> (r: Vec<RidEntry>)
    ensures
        rids_view(r@) == rid_map(media@.attributes, media@.attributes.len() as int),
        rids_distinct(rids_view(r@)),
{
    let ghost av = media@.attributes;
    let mut rids: Vec<RidEntry> = Vec::new();
    let mut i: usize = 0;
    while i < media.attributes.len()
        invariant
            av == attrs_view(media.attributes@),
            i <= media.attributes.len(),
            rids_view(rids@) == rid_map(av, i as int),
        decreases media.attributes.len() - i,
    {
        let a: &Attr = &media.attributes[i];
        if str_eq(a.key.as_str(), "rid") {
            match &a.value {
                Some(value) => {
                    let rid = first_word(value.as_str());
                    insert_rid(&mut rids, rid, value.clone());
                },
                None => {},
            }
        }
        proof {
            assert(rids_view(rids@) == rid_map(av, i + 1));
        }
        i = i + 1;
    }
    proof {
        lemma_rid_map_distinct(av, av.len() as int);
    }
    rids
}

/// No two entries of a rid map share a rid.
pub open spec fn rids_distinct(m: Seq<RidView>) -> bool {
    forall|i: int, j: int| 0 <= i < m.len() && 0 <= j < m.len() && i != j ==> m[i].rid != m[j].rid
}

proof fn lemma_rid_position(m: Seq<RidView>, rid: Seq<char>, from: int)
    requires
        0 <= from,
    ensures
        match rid_position(m, rid, from) {
            Some(i) => from <= i < m.len() && m[i].rid == rid,
            None => forall|j: int| from <= j < m.len() ==> m[j].rid != rid,
        },
    decreases m.len() - from,
{
    if from < m.len() && m[from].rid != rid {
        lemma_rid_position(m, rid, from + 1);
    }
}

proof fn lemma_rid_map_distinct(attrs: Seq<AttributeView>, n: int)
    ensures
        rids_distinct(rid_map(attrs, n)),
    decreases n,
{
    if 0 < n <= attrs.len() {
        lemma_rid_map_distinct(attrs, n - 1);
        let a = attrs[n - 1];
        if a.key == "rid"@ && a.value.is_some() {
            lemma_rid_position(rid_map(attrs, n - 1), first_token(a.value.unwrap()), 0);
        }
    }
}

} // verus!
