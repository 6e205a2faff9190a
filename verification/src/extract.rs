//! Locating the UDP application payload inside one raw captured frame.
//!
//! A frame is assumed to carry Ethernet over IPv4 over UDP: a fixed 14-byte
//! link header, a variable-length IPv4 header whose low nibble of the first
//! byte gives the header length in 32-bit words, and a fixed 8-byte UDP
//! header.  The IPv4 total-length field, not the captured buffer length,
//! bounds the packet, so trailing capture padding is never taken as payload.

use vstd::prelude::*;
use vstd::slice::slice_index_get;
use vstd::slice::slice_subrange;

verus! {

/// Bytes of link-layer (Ethernet) framing before the IPv4 header.
pub const LINK_HEADER_LEN: usize = 14;

/// Bytes of UDP header before the application payload.
pub const UDP_HEADER_LEN: usize = 8;

/// Why no payload could be located: the frame is shorter than the assumed
/// Ethernet + IPv4 + UDP layout requires.  Any of these is fatal for a
/// replay run, since it means the assumed encapsulation does not fit the
/// capture.
#[derive(Clone, Copy, Debug, PartialEq, Eq, Structural)]
pub enum ExtractError {
    /// The frame ends before the IPv4 length fields can even be read.
    TruncatedHeaders,
    /// The IPv4 total-length field points past the end of the captured bytes.
    PacketExceedsFrame,
    /// The IPv4 header plus the UDP header do not fit inside the IPv4
    /// total length.
    HeadersExceedPacket,
}

/// The IPv4 header length in bytes: the low four bits of the first
/// network-layer byte, counted in 32-bit words.
pub open spec fn spec_ip_header_len(frame: Seq<u8>) -> int
    recommends
        frame.len() > LINK_HEADER_LEN,
{
    (frame[14] & 0x0f) * 4
}

/// The IPv4 total length: bytes 2-3 of the network-layer header, big endian.
pub open spec fn spec_packet_len(frame: Seq<u8>) -> int
    recommends
        frame.len() >= 18,
{
    frame[16] * 256 + frame[17]
}

/// Offset of the first payload byte within the whole frame: link header,
/// then IPv4 header, then UDP header.
pub open spec fn spec_payload_start(frame: Seq<u8>) -> int {
    LINK_HEADER_LEN + spec_ip_header_len(frame) + UDP_HEADER_LEN
}

/// Offset one past the last payload byte within the whole frame: where the
/// IPv4 packet ends, regardless of how many captured bytes follow.
pub open spec fn spec_payload_end(frame: Seq<u8>) -> int {
    LINK_HEADER_LEN + spec_packet_len(frame)
}

/// Whether the frame is long enough, and its length fields consistent
/// enough, for the assumed layout to yield a payload.
pub open spec fn extractable(frame: Seq<u8>) -> bool {
    &&& frame.len() >= 18
    &&& LINK_HEADER_LEN + spec_packet_len(frame) <= frame.len()
    &&& spec_ip_header_len(frame) + UDP_HEADER_LEN <= spec_packet_len(frame)
}

/// The payload of an extractable frame: the bytes between the end of the
/// UDP header and the end of the IPv4 packet.
pub open spec fn spec_payload(frame: Seq<u8>) -> Seq<u8>
    recommends
        extractable(frame),
{
    frame.subrange(spec_payload_start(frame), spec_payload_end(frame))
}

/// Which error a non-extractable frame is reported with: the checks are
/// made in layout order, outermost first.
pub open spec fn spec_extract_err(frame: Seq<u8>) -> ExtractError
    recommends
        !extractable(frame),
{
    if frame.len() < 18 {
        ExtractError::TruncatedHeaders
    } else if LINK_HEADER_LEN + spec_packet_len(frame) > frame.len() {
        ExtractError::PacketExceedsFrame
    } else {
        ExtractError::HeadersExceedPacket
    }
}

/// Walk the fixed link header, the variable IPv4 header and the fixed UDP
/// header of one captured frame and return a view of the application
/// payload, bounded by the IPv4 total-length field.
pub fn extract(frame: &[u8]) -> (r: Result<&[u8], ExtractError>)
    ensures
        r is Ok <==> extractable(frame@),
        match r {
            Ok(p) => extractable(frame@) && p@ == spec_payload(frame@),
            Err(e) => !extractable(frame@) && e == spec_extract_err(frame@),
        },
{
    if frame.len() < 18 {
        return Err(ExtractError::TruncatedHeaders);
    }
    let first_ip_byte: u8 = *slice_index_get(frame, 14);
    let nibble: u8 = first_ip_byte & 0x0f;
    assert(nibble <= 0x0f) by (bit_vector)
        requires
            nibble == first_ip_byte & 0x0f,
    ;
    let ip_header_len: usize = (nibble as usize) * 4;
    let len_hi: u8 = *slice_index_get(frame, 16);
    let len_lo: u8 = *slice_index_get(frame, 17);
    let packet_len: usize = (len_hi as usize) * 256 + (len_lo as usize);
    if LINK_HEADER_LEN + packet_len > frame.len() {
        return Err(ExtractError::PacketExceedsFrame);
    }
    if ip_header_len + UDP_HEADER_LEN > packet_len {
        return Err(ExtractError::HeadersExceedPacket);
    }
    let payload_start: usize = LINK_HEADER_LEN + ip_header_len + UDP_HEADER_LEN;
    let payload_end: usize = LINK_HEADER_LEN + packet_len;
    Ok(slice_subrange(frame, payload_start, payload_end))
}

/// Extraction correctness: for a frame whose IPv4 header-length field is 5
/// (a 20-byte header, no options) and whose total-length field is
/// `total_len`, the payload is exactly the bytes from offset
/// 14 + 20 + 8 = 42 up to offset `14 + total_len`, whatever trailing bytes
/// the capture buffer holds beyond the packet.
pub proof fn lemma_extract_fixed_header(frame: Seq<u8>, total_len: int)
    requires
        frame.len() >= 18,
        frame[14] & 0x0f == 5,
        spec_packet_len(frame) == total_len,
        LINK_HEADER_LEN + total_len <= frame.len(),
        28 <= total_len,
    ensures
        extractable(frame),
        spec_payload(frame) == frame.subrange(42, 14 + total_len),
{
    assert(spec_ip_header_len(frame) == 20);
}

/// Header-length variability: with an IPv4 header-length field of 6 (a
/// 24-byte header) the payload starts exactly 4 bytes later than with a
/// header-length field of 5, all else equal.
pub proof fn lemma_header_len_six_shifts_payload(five: Seq<u8>, six: Seq<u8>)
    requires
        five.len() > LINK_HEADER_LEN,
        six.len() > LINK_HEADER_LEN,
        five[14] & 0x0f == 5,
        six[14] & 0x0f == 6,
    ensures
        spec_payload_start(six) == spec_payload_start(five) + 4,
{
}

} // verus!
