use vstd::prelude::*;
use crate::text::str_eq;

verus! {

type D = RTCRtpTransceiverDirection;

/// The negotiated direction of an RTP transceiver.
#[derive(Debug, Clone, Copy, PartialEq, Eq, Structural)]
pub enum RTCRtpTransceiverDirection {
    Unspecified,
    /// The transceiver both offers to send and to receive.
    Sendrecv,
    /// The transceiver only offers to send.
    Sendonly,
    /// The transceiver only offers to receive.
    Recvonly,
    /// The transceiver neither sends nor receives.
    Inactive,
}

pub open spec fn spec_has_send(d: RTCRtpTransceiverDirection) -> bool {
    d == RTCRtpTransceiverDirection::Sendrecv || d == RTCRtpTransceiverDirection::Sendonly
}

pub open spec fn spec_has_recv(d: RTCRtpTransceiverDirection) -> bool {
    d == RTCRtpTransceiverDirection::Sendrecv || d == RTCRtpTransceiverDirection::Recvonly
}

pub open spec fn spec_from_send_recv(send: bool, recv: bool) -> RTCRtpTransceiverDirection {
    if send && recv {
        RTCRtpTransceiverDirection::Sendrecv
    } else if send {
        RTCRtpTransceiverDirection::Sendonly
    } else if recv {
        RTCRtpTransceiverDirection::Recvonly
    } else {
        RTCRtpTransceiverDirection::Inactive
    }
}

pub open spec fn spec_reverse(d: RTCRtpTransceiverDirection) -> RTCRtpTransceiverDirection {
    match d {
        RTCRtpTransceiverDirection::Sendonly => RTCRtpTransceiverDirection::Recvonly,
        RTCRtpTransceiverDirection::Recvonly => RTCRtpTransceiverDirection::Sendonly,
        _ => d,
    }
}

/// The narrowest direction both sides support: it sends only where both send and
/// receives only where both receive.
pub open spec fn spec_intersect(
    a: RTCRtpTransceiverDirection,
    b: RTCRtpTransceiverDirection,
) -> RTCRtpTransceiverDirection {
    spec_from_send_recv(
        spec_has_send(a) && spec_has_send(b),
        spec_has_recv(a) && spec_has_recv(b),
    )
}

/// The text of a direction as it appears in an SDP attribute.
pub open spec fn direction_text(d: RTCRtpTransceiverDirection) -> Seq<char> {
    match d {
        RTCRtpTransceiverDirection::Unspecified => "Unspecified"@,
        RTCRtpTransceiverDirection::Sendrecv => "sendrecv"@,
        RTCRtpTransceiverDirection::Sendonly => "sendonly"@,
        RTCRtpTransceiverDirection::Recvonly => "recvonly"@,
        RTCRtpTransceiverDirection::Inactive => "inactive"@,
    }
}

/// The direction named by a text; anything but the four SDP names is `Unspecified`.
pub open spec fn direction_of_text(s: Seq<char>) -> RTCRtpTransceiverDirection {
    if s == "sendrecv"@ {
        RTCRtpTransceiverDirection::Sendrecv
    } else if s == "sendonly"@ {
        RTCRtpTransceiverDirection::Sendonly
    } else if s == "recvonly"@ {
        RTCRtpTransceiverDirection::Recvonly
    } else if s == "inactive"@ {
        RTCRtpTransceiverDirection::Inactive
    } else {
        RTCRtpTransceiverDirection::Unspecified
    }
}

pub proof fn lemma_direction_names_distinct()
    ensures
        "sendrecv"@ != "sendonly"@,
        "sendrecv"@ != "recvonly"@,
        "sendrecv"@ != "inactive"@,
        "sendonly"@ != "recvonly"@,
        "sendonly"@ != "inactive"@,
        "recvonly"@ != "inactive"@,
        "Unspecified"@ != "sendrecv"@,
        "Unspecified"@ != "sendonly"@,
        "Unspecified"@ != "recvonly"@,
        "Unspecified"@ != "inactive"@,
{
    reveal_strlit("sendrecv");
    reveal_strlit("sendonly");
    reveal_strlit("recvonly");
    reveal_strlit("inactive");
    reveal_strlit("Unspecified");
    assert("sendrecv"@[4] != "sendonly"@[4]);
    assert("sendrecv"@[0] != "recvonly"@[0]);
    assert("sendrecv"@[0] != "inactive"@[0]);
    assert("sendonly"@[0] != "recvonly"@[0]);
    assert("sendonly"@[0] != "inactive"@[0]);
    assert("recvonly"@[0] != "inactive"@[0]);
    assert("Unspecified"@.len() != "sendrecv"@.len());
}

impl RTCRtpTransceiverDirection {
    pub fn has_send(&self) -> (r: bool)
        ensures
            r == spec_has_send(*self),
    {
        match self {
            RTCRtpTransceiverDirection::Sendrecv => true,
            RTCRtpTransceiverDirection::Sendonly => true,
            _ => false,
        }
    }

    pub fn has_recv(&self) -> (r: bool)
        ensures
            r == spec_has_recv(*self),
    {
        match self {
            RTCRtpTransceiverDirection::Sendrecv => true,
            RTCRtpTransceiverDirection::Recvonly => true,
            _ => false,
        }
    }

    pub fn from_send_recv(send: bool, recv: bool) -> (r: RTCRtpTransceiverDirection)
        ensures
            r == spec_from_send_recv(send, recv),
    {
        if send && recv {
            RTCRtpTransceiverDirection::Sendrecv
        } else if send {
            RTCRtpTransceiverDirection::Sendonly
        } else if recv {
            RTCRtpTransceiverDirection::Recvonly
        } else {
            RTCRtpTransceiverDirection::Inactive
        }
    }

    /// Swaps `Sendonly` and `Recvonly`; every other direction stays.
    pub fn reverse(&self) -> (r: RTCRtpTransceiverDirection)
        ensures
            r == spec_reverse(*self),
    {
        match self {
            RTCRtpTransceiverDirection::Sendonly => RTCRtpTransceiverDirection::Recvonly,
            RTCRtpTransceiverDirection::Recvonly => RTCRtpTransceiverDirection::Sendonly,
            _ => *self,
        }
    }

    /// The most restrictive direction that both `self` and `other` support,
    /// given as an explicit table over all pairs.
    pub fn intersect(&self, other: RTCRtpTransceiverDirection) -> (r: RTCRtpTransceiverDirection)
        ensures
            r == spec_intersect(*self, other),
            spec_has_send(r) ==> spec_has_send(*self) && spec_has_send(other),
            spec_has_recv(r) ==> spec_has_recv(*self) && spec_has_recv(other),
    {
        match (*self, other) {
            (D::Sendrecv, D::Sendrecv) => D::Sendrecv,
            (D::Sendrecv, D::Sendonly) => D::Sendonly,
            (D::Sendrecv, D::Recvonly) => D::Recvonly,
            (D::Sendonly, D::Sendrecv) => D::Sendonly,
            (D::Sendonly, D::Sendonly) => D::Sendonly,
            (D::Recvonly, D::Sendrecv) => D::Recvonly,
            (D::Recvonly, D::Recvonly) => D::Recvonly,
            _ => D::Inactive,
        }
    }

    /// Reads a direction from its SDP name; any other text gives `Unspecified`.
    pub fn from_str_name(s: &str) -> (r: RTCRtpTransceiverDirection)
        ensures
            r == direction_of_text(s@),
    {
        if str_eq(s, "sendrecv") {
            RTCRtpTransceiverDirection::Sendrecv
        } else if str_eq(s, "sendonly") {
            RTCRtpTransceiverDirection::Sendonly
        } else if str_eq(s, "recvonly") {
            RTCRtpTransceiverDirection::Recvonly
        } else if str_eq(s, "inactive") {
            RTCRtpTransceiverDirection::Inactive
        } else {
            RTCRtpTransceiverDirection::Unspecified
        }
    }

    /// The SDP name of the direction.
    pub fn to_string(&self) -> (r: String)
        ensures
            r@ == direction_text(*self),
    {
        match self {
            RTCRtpTransceiverDirection::Unspecified => String::from_str("Unspecified"),
            RTCRtpTransceiverDirection::Sendrecv => String::from_str("sendrecv"),
            RTCRtpTransceiverDirection::Sendonly => String::from_str("sendonly"),
            RTCRtpTransceiverDirection::Recvonly => String::from_str("recvonly"),
            RTCRtpTransceiverDirection::Inactive => String::from_str("inactive"),
        }
    }
}

impl From<&str> for RTCRtpTransceiverDirection {
    fn from(s: &str) -> (r: RTCRtpTransceiverDirection) {
        RTCRtpTransceiverDirection::from_str_name(s)
    }
}

impl vstd::std_specs::convert::FromSpecImpl<&str> for RTCRtpTransceiverDirection {
    open spec fn obeys_from_spec() -> bool {
        true
    }

    open spec fn from_spec(s: &str) -> RTCRtpTransceiverDirection {
        direction_of_text(s@)
    }
}

/// Naming a direction and reading the name back gives the same direction; the empty
/// text and any unknown text read as `Unspecified`.
pub proof fn lemma_direction_text_round_trip(d: RTCRtpTransceiverDirection, s: Seq<char>)
    ensures
        d != RTCRtpTransceiverDirection::Unspecified ==> direction_of_text(direction_text(d)) == d,
        direction_of_text(direction_text(RTCRtpTransceiverDirection::Unspecified))
            == RTCRtpTransceiverDirection::Unspecified,
        s != "sendrecv"@ && s != "sendonly"@ && s != "recvonly"@ && s != "inactive"@
            ==> direction_of_text(s) == RTCRtpTransceiverDirection::Unspecified,
        direction_of_text(Seq::empty()) == RTCRtpTransceiverDirection::Unspecified,
{
    lemma_direction_names_distinct();
    reveal_strlit("sendrecv");
    assert(Seq::<char>::empty().len() != "sendrecv"@.len());
    reveal_strlit("sendonly");
    assert(Seq::<char>::empty().len() != "sendonly"@.len());
    reveal_strlit("recvonly");
    assert(Seq::<char>::empty().len() != "recvonly"@.len());
    reveal_strlit("inactive");
    assert(Seq::<char>::empty().len() != "inactive"@.len());
}

/// Reversing a direction twice gives it back.
pub proof fn lemma_reverse_involutive(d: RTCRtpTransceiverDirection)
    ensures
        spec_reverse(spec_reverse(d)) == d,
{
}

/// The intersection of two directions never grants a capability that one of them lacks.
pub proof fn lemma_intersect_grants_nothing_new(
    a: RTCRtpTransceiverDirection,
    b: RTCRtpTransceiverDirection,
)
    ensures
        spec_has_send(spec_intersect(a, b)) ==> spec_has_send(a) && spec_has_send(b),
        spec_has_recv(spec_intersect(a, b)) ==> spec_has_recv(a) && spec_has_recv(b),
        spec_intersect(a, b) == spec_intersect(b, a),
{
}

} // verus!
