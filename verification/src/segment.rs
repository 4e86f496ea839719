//! Segment size arithmetic: the payload that fits in one packet of a given MTU.

use vstd::prelude::*;

verus! {

/// MTU assumed for the path to the configuration server: the smallest MTU
/// that every IPv4 link must carry.
pub const CONFIG_CLIENT_MTU: u16 = 576;

/// Size of an IPv4 header without options.
pub const IPV4_HEADER_SIZE: u16 = 20;

/// Size of a TCP header with the largest set of options.
pub const MAX_TCP_HEADER_SIZE: u16 = 60;

/// The payload left in a packet of `mtu` bytes after both headers, and zero
/// where the headers alone fill it.
pub open spec fn segment_room(mtu: int, ip_header: int, tcp_header: int) -> int {
    if mtu - ip_header - tcp_header > 0 {
        mtu - ip_header - tcp_header
    } else {
        0
    }
}

/// The segment size for a path of `mtu` bytes under the fixed header sizes.
pub open spec fn mss_of(mtu: int) -> int {
    segment_room(mtu, IPV4_HEADER_SIZE as int, MAX_TCP_HEADER_SIZE as int)
}

/// Subtracts both header sizes from `mtu`, stopping at zero.
pub fn derive_mss(mtu: u16, ip_header: u16, tcp_header: u16) -> (mss: u32)
    ensures
        mss == segment_room(mtu as int, ip_header as int, tcp_header as int),
        mss <= mtu,
{
    let without_ip: u16 = mtu.saturating_sub(ip_header);
    let room: u16 = without_ip.saturating_sub(tcp_header);
    room as u32
}

/// The segment size for a path of `mtu` bytes.
pub fn mss_for_mtu(mtu: u16) -> (mss: u32)
    ensures
        mss == mss_of(mtu as int),
        mtu <= 80 ==> mss == 0,
        mtu > 80 ==> mss == mtu - 80,
{
    derive_mss(mtu, IPV4_HEADER_SIZE, MAX_TCP_HEADER_SIZE)
}

/// The segment size that the configuration client asks for.
pub fn desired_mss() -> (mss: u32)
    ensures
        mss == mss_of(CONFIG_CLIENT_MTU as int),
        mss == 496,
{
    mss_for_mtu(CONFIG_CLIENT_MTU)
}

} // verus!
