use vstd::prelude::*;
use crate::text::str_eq;

verus! {

/// The kind of a session description: offer, answer, provisional answer or rollback.
#[derive(Debug, Clone, Copy, PartialEq, Eq, Structural)]
pub enum RTCSdpType {
    Unspecified,
    /// An initial or updated offer.
    Offer,
    /// An answer that may still change.
    Pranswer,
    /// A final answer.
    Answer,
    /// A return to the last stable state.
    Rollback,
}

pub open spec fn sdp_type_text(t: RTCSdpType) -> Seq<char> {
    match t {
        RTCSdpType::Unspecified => "Unspecified"@,
        RTCSdpType::Offer => "offer"@,
        RTCSdpType::Pranswer => "pranswer"@,
        RTCSdpType::Answer => "answer"@,
        RTCSdpType::Rollback => "rollback"@,
    }
}

/// The type named by a text; anything but the four names is `Unspecified`.
pub open spec fn sdp_type_of_text(s: Seq<char>) -> RTCSdpType {
    if s == "offer"@ {
        RTCSdpType::Offer
    } else if s == "pranswer"@ {
        RTCSdpType::Pranswer
    } else if s == "answer"@ {
        RTCSdpType::Answer
    } else if s == "rollback"@ {
        RTCSdpType::Rollback
    } else {
        RTCSdpType::Unspecified
    }
}

impl RTCSdpType {
    pub fn from_str_name(s: &str) -> (r: RTCSdpType)
        ensures
            r == sdp_type_of_text(s@),
    {
        if str_eq(s, "offer") {
            RTCSdpType::Offer
        } else if str_eq(s, "pranswer") {
            RTCSdpType::Pranswer
        } else if str_eq(s, "answer") {
            RTCSdpType::Answer
        } else if str_eq(s, "rollback") {
            RTCSdpType::Rollback
        } else {
            RTCSdpType::Unspecified
        }
    }

    pub fn to_string(&self) -> (r: String)
        ensures
            r@ == sdp_type_text(*self),
    {
        match self {
            RTCSdpType::Unspecified => String::from_str("Unspecified"),
            RTCSdpType::Offer => String::from_str("offer"),
            RTCSdpType::Pranswer => String::from_str("pranswer"),
            RTCSdpType::Answer => String::from_str("answer"),
            RTCSdpType::Rollback => String::from_str("rollback"),
        }
    }
}

impl From<&str> for RTCSdpType {
    fn from(s: &str) -> (r: RTCSdpType) {
        RTCSdpType::from_str_name(s)
    }
}

impl vstd::std_specs::convert::FromSpecImpl<&str> for RTCSdpType {
    open spec fn obeys_from_spec() -> bool {
        true
    }

    open spec fn from_spec(s: &str) -> RTCSdpType {
        sdp_type_of_text(s@)
    }
}

} // verus!
