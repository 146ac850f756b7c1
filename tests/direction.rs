use sfu_session::direction::RTCRtpTransceiverDirection;
use sfu_session::direction::RTCRtpTransceiverDirection::{
    Inactive, Recvonly, Sendonly, Sendrecv, Unspecified,
};

#[test]
fn test_new_rtp_transceiver_direction() {
    let tests = vec![
        ("Unspecified", RTCRtpTransceiverDirection::Unspecified),
        ("sendrecv", RTCRtpTransceiverDirection::Sendrecv),
        ("sendonly", RTCRtpTransceiverDirection::Sendonly),
        ("recvonly", RTCRtpTransceiverDirection::Recvonly),
        ("inactive", RTCRtpTransceiverDirection::Inactive),
    ];

    for (ct_str, expected_type) in tests {
        assert_eq!(RTCRtpTransceiverDirection::from(ct_str), expected_type);
    }
}

#[test]
fn test_rtp_transceiver_direction_string() {
    let tests = vec![
        (RTCRtpTransceiverDirection::Unspecified, "Unspecified"),
        (RTCRtpTransceiverDirection::Sendrecv, "sendrecv"),
        (RTCRtpTransceiverDirection::Sendonly, "sendonly"),
        (RTCRtpTransceiverDirection::Recvonly, "recvonly"),
        (RTCRtpTransceiverDirection::Inactive, "inactive"),
    ];

    for (d, expected_string) in tests {
        assert_eq!(d.to_string(), expected_string);
    }
}

#[test]
fn test_rtp_transceiver_has_send() {
    let tests = vec![
        (RTCRtpTransceiverDirection::Unspecified, false),
        (RTCRtpTransceiverDirection::Sendrecv, true),
        (RTCRtpTransceiverDirection::Sendonly, true),
        (RTCRtpTransceiverDirection::Recvonly, false),
        (RTCRtpTransceiverDirection::Inactive, false),
    ];

    for (d, expected_value) in tests {
        assert_eq!(d.has_send(), expected_value);
    }
}

#[test]
fn test_rtp_transceiver_has_recv() {
    let tests = vec![
        (RTCRtpTransceiverDirection::Unspecified, false),
        (RTCRtpTransceiverDirection::Sendrecv, true),
        (RTCRtpTransceiverDirection::Sendonly, false),
        (RTCRtpTransceiverDirection::Recvonly, true),
        (RTCRtpTransceiverDirection::Inactive, false),
    ];

    for (d, expected_value) in tests {
        assert_eq!(d.has_recv(), expected_value);
    }
}

#[test]
fn test_rtp_transceiver_from_send_recv() {
    let tests = vec![
        (RTCRtpTransceiverDirection::Sendrecv, (true, true)),
        (RTCRtpTransceiverDirection::Sendonly, (true, false)),
        (RTCRtpTransceiverDirection::Recvonly, (false, true)),
        (RTCRtpTransceiverDirection::Inactive, (false, false)),
    ];

    for (expected_value, (send, recv)) in tests {
        assert_eq!(
            RTCRtpTransceiverDirection::from_send_recv(send, recv),
            expected_value
        );
    }
}

#[test]
fn test_rtp_transceiver_intersect() {
    let tests = vec![
        ((Sendrecv, Recvonly), Recvonly),
        ((Sendrecv, Sendonly), Sendonly),
        ((Sendrecv, Inactive), Inactive),
        ((Sendonly, Inactive), Inactive),
        ((Recvonly, Inactive), Inactive),
        ((Recvonly, Sendrecv), Recvonly),
        ((Sendonly, Sendrecv), Sendonly),
        ((Sendonly, Recvonly), Inactive),
        ((Recvonly, Recvonly), Recvonly),
    ];

    for ((a, b), expected_direction) in tests {
        assert_eq!(a.intersect(b), expected_direction);
    }
}

#[test]
fn intersect_never_grants_a_missing_capability() {
    let all = [Unspecified, Sendrecv, Sendonly, Recvonly, Inactive];
    for a in all {
        for b in all {
            let r = a.intersect(b);
            if r.has_send() {
                assert!(a.has_send() && b.has_send());
            }
            if r.has_recv() {
                assert!(a.has_recv() && b.has_recv());
            }
        }
    }
}

#[test]
fn reverse_twice_is_identity() {
    assert_eq!(Sendonly.reverse(), Recvonly);
    assert_eq!(Recvonly.reverse(), Sendonly);
    for d in [Unspecified, Sendrecv, Sendonly, Recvonly, Inactive] {
        assert_eq!(d.reverse().reverse(), d);
    }
}

#[test]
fn direction_name_round_trip() {
    for d in [Sendrecv, Sendonly, Recvonly, Inactive] {
        assert_eq!(RTCRtpTransceiverDirection::from(d.to_string().as_str()), d);
    }
    assert_eq!(RTCRtpTransceiverDirection::from(""), Unspecified);
    assert_eq!(RTCRtpTransceiverDirection::from("garbage"), Unspecified);
}
