use sfu_session::sdp_type::RTCSdpType;

#[test]
fn test_new_sdp_type() {
    let tests = vec![
        ("Unspecified", RTCSdpType::Unspecified),
        ("offer", RTCSdpType::Offer),
        ("pranswer", RTCSdpType::Pranswer),
        ("answer", RTCSdpType::Answer),
        ("rollback", RTCSdpType::Rollback),
    ];

    for (sdp_type_string, expected_sdp_type) in tests {
        assert_eq!(RTCSdpType::from(sdp_type_string), expected_sdp_type);
    }
}

#[test]
fn test_sdp_type_string() {
    let tests = vec![
        (RTCSdpType::Unspecified, "Unspecified"),
        (RTCSdpType::Offer, "offer"),
        (RTCSdpType::Pranswer, "pranswer"),
        (RTCSdpType::Answer, "answer"),
        (RTCSdpType::Rollback, "rollback"),
    ];

    for (sdp_type, expected_string) in tests {
        assert_eq!(sdp_type.to_string(), expected_string);
    }
}

#[test]
fn sdp_type_unknown_text_is_unspecified() {
    assert_eq!(RTCSdpType::from(""), RTCSdpType::Unspecified);
    assert_eq!(RTCSdpType::from("Offer"), RTCSdpType::Unspecified);
}
