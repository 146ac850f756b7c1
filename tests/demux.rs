use sfu_session::demux::{
    is_rtcp, match_all, match_dtls, match_range, match_srtcp, match_srtp, match_srtp_or_srtcp,
};

#[test]
fn demux_classifies_by_first_byte() {
    assert!(match_all(&[]));
    assert!(!match_range(0, 3, &[]));
    assert!(match_range(0, 3, &[3, 9]));
    assert!(!match_range(0, 3, &[4]));
    assert!(match_dtls(&[20]));
    assert!(match_dtls(&[63]));
    assert!(!match_dtls(&[64]));
    assert!(match_srtp_or_srtcp(&[128]));
    assert!(match_srtp_or_srtcp(&[191]));
    assert!(!match_srtp_or_srtcp(&[192]));
}

#[test]
fn demux_tells_rtp_from_rtcp() {
    let rtcp = [0x80, 200, 0, 6];
    let rtp = [0x80, 96, 0, 1];
    assert!(is_rtcp(&rtcp));
    assert!(!is_rtcp(&[0x80, 200, 0]));
    assert!(match_srtcp(&rtcp));
    assert!(!match_srtp(&rtcp));
    assert!(match_srtp(&rtp));
    assert!(!match_srtcp(&rtp));
}
