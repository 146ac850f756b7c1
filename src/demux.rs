use vstd::prelude::*;

verus! {

/// Whether a packet's first byte lies in `[lower, upper]`; an empty packet matches nothing.
pub open spec fn first_byte_in(buf: Seq<u8>, lower: u8, upper: u8) -> bool {
    buf.len() > 0 && lower <= buf[0] && buf[0] <= upper
}

/// Whether a packet is long enough to be told apart and its second byte is an RTCP
/// packet type (192 to 223).
pub open spec fn spec_is_rtcp(buf: Seq<u8>) -> bool {
    buf.len() >= 4 && 192 <= buf[1] && buf[1] <= 223
}

/// Accepts every packet.
pub fn match_all(_b: &[u8]) -> (r: bool)
    ensures
        r,
{
    true
}

/// Accepts the packets whose first byte lies in `[lower, upper]`.
pub fn match_range(lower: u8, upper: u8, buf: &[u8]) -> (r: bool)
    ensures
        r == first_byte_in(buf@, lower, upper),
{
    if buf.len() == 0 {
        return false;
    }
    let b = buf[0];
    b >= lower && b <= upper
}

/// Accepts DTLS packets: first byte in `[20, 63]`.
pub fn match_dtls(b: &[u8]) -> (r: bool)
    ensures
        r == first_byte_in(b@, 20, 63),
{
    match_range(20, 63, b)
}

/// Accepts SRTP and SRTCP packets: first byte in `[128, 191]`.
pub fn match_srtp_or_srtcp(b: &[u8]) -> (r: bool)
    ensures
        r == first_byte_in(b@, 128, 191),
{
    match_range(128, 191, b)
}

/// Whether an RTP-range packet carries RTCP.
pub fn is_rtcp(buf: &[u8]) -> (r: bool)
    ensures
        r == spec_is_rtcp(buf@),
{
    if buf.len() < 4 {
        return false;
    }
    let rtcp_packet_type = buf[1];
    192 <= rtcp_packet_type && rtcp_packet_type <= 223
}

/// Accepts SRTP packets, not SRTCP.
pub fn match_srtp(buf: &[u8]) -> (r: bool)
    ensures
        r == (first_byte_in(buf@, 128, 191) && !spec_is_rtcp(buf@)),
{
    match_srtp_or_srtcp(buf) && !is_rtcp(buf)
}

/// Accepts SRTCP packets, not SRTP.
pub fn match_srtcp(buf: &[u8]) -> (r: bool)
    ensures
        r == (first_byte_in(buf@, 128, 191) && spec_is_rtcp(buf@)),
{
    match_srtp_or_srtcp(buf) && is_rtcp(buf)
}

} // verus!
