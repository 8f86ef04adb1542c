//! IP addresses and CIDR networks as plain integers, and the address
//! classification used by the scope guard.

use vstd::prelude::*;

use crate::bindings::{ip_network_parse, parse_ip_network};
use crate::models::ScopeCategory;
use crate::text::{chars_of, contains_char};

verus! {

/// An IP address: IPv4 as the big-endian `u32` of its four octets, IPv6 as
/// the big-endian `u128` of its sixteen bytes.
#[derive(Debug, Clone, Copy, PartialEq, Eq, Structural)]
pub enum IpAddress {
    V4(u32),
    V6(u128),
}

/// A CIDR network: an address (host bits may be set) and a prefix length,
/// at most 32 for IPv4 and 128 for IPv6.
#[derive(Debug, Clone, Copy, PartialEq, Eq, Structural)]
pub enum IpNet {
    V4 { addr: u32, prefix: u8 },
    V6 { addr: u128, prefix: u8 },
}

/// The IPv4 netmask with `prefix` leading one bits.
pub open spec fn v4_mask(prefix: u8) -> u32 {
    (!(0xffff_ffffu64 >> (prefix as u64))) as u32
}

/// The IPv6 netmask with `prefix` leading one bits.
pub open spec fn v6_mask(prefix: u8) -> u128 {
    if prefix == 0 {
        0u128
    } else {
        u128::MAX << ((128 - prefix) as u128)
    }
}

/// `net` contains `ip`: both are of the same family and agree on the
/// network bits.
pub open spec fn net_contains(net: IpNet, ip: IpAddress) -> bool {
    match (net, ip) {
        (IpNet::V4 { addr, prefix }, IpAddress::V4(a)) => (a & v4_mask(prefix)) == (addr & v4_mask(
            prefix,
        )),
        (IpNet::V6 { addr, prefix }, IpAddress::V6(a)) => (a & v6_mask(prefix)) == (addr & v6_mask(
            prefix,
        )),
        _ => false,
    }
}

/// The address a text denotes, as `<std::net::IpAddr as FromStr>` reads it.
/// The text is read through `ipnetwork::IpNetwork::from_str`: for a text
/// without `/` that parser accepts exactly what `Ipv4Addr::from_str` or else
/// `Ipv6Addr::from_str` accepts, and keeps the address with a full-width
/// prefix; a text with `/` is never a single address.
pub open spec fn ip_addr_parse(s: Seq<char>) -> Option<IpAddress> {
    if s.contains('/') {
        None
    } else {
        match ip_network_parse(s) {
            Some(IpNet::V4 { addr, .. }) => Some(IpAddress::V4(addr)),
            Some(IpNet::V6 { addr, .. }) => Some(IpAddress::V6(addr)),
            None => None,
        }
    }
}

/// The address denoted by `s`, or `None` when `s` is not an IP address.
pub fn parse_ip_addr(s: &str) -> (r: Option<IpAddress>)
    ensures
        r == ip_addr_parse(s@),
{
    let cs = chars_of(s);
    if contains_char(&cs, '/') {
        return None;
    }
    match parse_ip_network(s) {
        Some(IpNet::V4 { addr, .. }) => Some(IpAddress::V4(addr)),
        Some(IpNet::V6 { addr, .. }) => Some(IpAddress::V6(addr)),
        None => None,
    }
}

/// The network denoted by `s`, or `None` when `s` is not a CIDR network.
pub fn parse_network(s: &str) -> (r: Option<IpNet>)
    ensures
        r == ip_network_parse(s@),
        r matches Some(n) ==> net_well_formed(n),
{
    parse_ip_network(s)
}

/// The prefix length is within the address width.
pub open spec fn net_well_formed(net: IpNet) -> bool {
    match net {
        IpNet::V4 { prefix, .. } => prefix <= 32,
        IpNet::V6 { prefix, .. } => prefix <= 128,
    }
}

/// Whether `net` contains `ip`.
pub fn contains(net: IpNet, ip: IpAddress) -> (r: bool)
    requires
        net_well_formed(net),
    ensures
        r == net_contains(net, ip),
{
    match (net, ip) {
        (IpNet::V4 { addr, prefix }, IpAddress::V4(a)) => {
            let mask = (!(0xffff_ffffu64 >> (prefix as u64))) as u32;
            (a & mask) == (addr & mask)
        },
        (IpNet::V6 { addr, prefix }, IpAddress::V6(a)) => {
            let mask = if prefix == 0 {
                0u128
            } else {
                u128::MAX << ((128 - prefix) as u128)
            };
            (a & mask) == (addr & mask)
        },
        _ => false,
    }
}

/// A network always contains the address it was written with.
pub proof fn lemma_net_contains_own_address(net: IpNet)
    ensures
        net_contains(
            net,
            match net {
                IpNet::V4 { addr, .. } => IpAddress::V4(addr),
                IpNet::V6 { addr, .. } => IpAddress::V6(addr),
            },
        ),
{
}

/// 10.0.0.0/8, 172.16.0.0/12 or 192.168.0.0/16.
pub open spec fn v4_is_private(a: u32) -> bool {
    a >> 24u32 == 10u32 || a >> 20u32 == 0xac1u32 || a >> 16u32 == 0xc0a8u32
}

/// 127.0.0.0/8.
pub open spec fn v4_is_loopback(a: u32) -> bool {
    a >> 24u32 == 127u32
}

/// 169.254.0.0/16.
pub open spec fn v4_is_link_local(a: u32) -> bool {
    a >> 16u32 == 0xa9feu32
}

/// A target that needs no authorization: an IPv4 address in a private,
/// loopback or link-local range, or the IPv6 loopback address `::1`.
/// Anything that does not parse as an IP address (a domain) never is.
pub open spec fn is_private_address(target: Seq<char>) -> bool {
    match ip_addr_parse(target) {
        Some(IpAddress::V4(a)) => v4_is_private(a) || v4_is_loopback(a) || v4_is_link_local(a),
        Some(IpAddress::V6(a)) => a == 1,
        None => false,
    }
}

/// Whether `target` is auto-trusted: nothing outside the local machine or
/// LAN can be reached at such an address, so there is no third party to
/// authorize against. IPv6 unique-local ranges are not included.
pub fn is_private_target(target: &str) -> (r: bool)
    ensures
        r == is_private_address(target@),
{
    match parse_ip_addr(target) {
        Some(IpAddress::V4(a)) => {
            let private = a >> 24u32 == 10u32 || a >> 20u32 == 0xac1u32 || a >> 16u32 == 0xc0a8u32;
            let loopback = a >> 24u32 == 127u32;
            let link_local = a >> 16u32 == 0xa9feu32;
            private || loopback || link_local
        },
        Some(IpAddress::V6(a)) => a == 1,
        None => false,
    }
}

/// The category a scope pattern is registered under: a range when it holds
/// a `/`, a single address when it parses as one, a domain otherwise.
pub open spec fn category_of(pattern: Seq<char>) -> ScopeCategory {
    if pattern.contains('/') {
        ScopeCategory::IpRange
    } else if ip_addr_parse(pattern) is Some {
        ScopeCategory::Ip
    } else {
        ScopeCategory::Domain
    }
}

/// The category of the scope pattern `pattern`.
pub fn infer_category(pattern: &str) -> (r: ScopeCategory)
    ensures
        r == category_of(pattern@),
{
    let cs = chars_of(pattern);
    if contains_char(&cs, '/') {
        ScopeCategory::IpRange
    } else if parse_ip_addr(pattern).is_some() {
        ScopeCategory::Ip
    } else {
        ScopeCategory::Domain
    }
}

/// An IPv4 network with prefix length `p` (at most 32) contains exactly the
/// addresses that agree with its address on the top `p` bits, that is,
/// whose quotient by 2^(32 - p) is the same: a /32 network holds its one
/// address, a /0 network every IPv4 address, and no IPv6 address is in an
/// IPv4 network.
pub proof fn lemma_v4_net_contains_same_top_bits(addr: u32, prefix: u8, a: u32)
    requires
        prefix <= 32,
    ensures
        net_contains(IpNet::V4 { addr, prefix }, IpAddress::V4(a)) <==> ((a as u64) >> ((32
            - prefix) as u64)) == ((addr as u64) >> ((32 - prefix) as u64)),
        prefix == 32 ==> (net_contains(IpNet::V4 { addr, prefix }, IpAddress::V4(a)) <==> a
            == addr),
        prefix == 0 ==> net_contains(IpNet::V4 { addr, prefix }, IpAddress::V4(a)),
        forall|b: u128| !#[trigger] net_contains(IpNet::V4 { addr, prefix }, IpAddress::V6(b)),
{
    let m = v4_mask(prefix);
    assert(prefix <= 32 ==> (((a & m) == (addr & m)) <==> (((a as u64) >> ((32 - prefix) as u64))
        == ((addr as u64) >> ((32 - prefix) as u64))))) by (bit_vector)
        requires
            m == (!(0xffff_ffffu64 >> (prefix as u64))) as u32,
    ;
    assert(((a as u64) >> 0u64) == a && ((addr as u64) >> 0u64) == addr) by (bit_vector);
    assert(((a as u64) >> 32u64) == 0 && ((addr as u64) >> 32u64) == 0) by (bit_vector);
}

/// Masking with `sh` low zero bits keeps exactly the bits above them.
#[verifier::rlimit(100)]
proof fn lemma_v6_mask_top_bits(a: u128, addr: u128, sh: u128)
    by (bit_vector)
    requires
        sh < 128,
    ensures
        ((a & (u128::MAX << sh)) == (addr & (u128::MAX << sh))) <==> ((a >> sh) == (addr >> sh)),
{
}

/// An IPv6 network with prefix length `p` (at most 128) contains exactly
/// the addresses that agree with its address on the top `p` bits: a /128
/// network holds its one address, a /0 network every IPv6 address, and no
/// IPv4 address is in an IPv6 network.
pub proof fn lemma_v6_net_contains_same_top_bits(addr: u128, prefix: u8, a: u128)
    requires
        prefix <= 128,
    ensures
        0 < prefix ==> (net_contains(IpNet::V6 { addr, prefix }, IpAddress::V6(a)) <==> (a >> ((128
            - prefix) as u128)) == (addr >> ((128 - prefix) as u128))),
        prefix == 128 ==> (net_contains(IpNet::V6 { addr, prefix }, IpAddress::V6(a)) <==> a
            == addr),
        prefix == 0 ==> net_contains(IpNet::V6 { addr, prefix }, IpAddress::V6(a)),
        forall|b: u32| !#[trigger] net_contains(IpNet::V6 { addr, prefix }, IpAddress::V4(b)),
{
    let m = v6_mask(prefix);
    if prefix > 0 {
        let sh = (128 - prefix) as u128;
        lemma_v6_mask_top_bits(a, addr, sh);
        assert((a >> 0u128) == a && (addr >> 0u128) == addr) by (bit_vector);
    } else {
        assert((a & 0u128) == 0u128 && (addr & 0u128) == 0u128) by (bit_vector);
    }
}

/// An IPv4 target is auto-trusted exactly when it lies in 10.0.0.0/8,
/// 172.16.0.0/12, 192.168.0.0/16, 127.0.0.0/8 or 169.254.0.0/16, written
/// here as ranges of the address's integer value; any other IPv4 address
/// (such as 192.30.255.113) must be authorized by the registry.
pub proof fn lemma_private_v4_ranges(target: Seq<char>, a: u32)
    requires
        ip_addr_parse(target) == Some(IpAddress::V4(a)),
    ensures
        is_private_address(target) <==> (0x0a00_0000 <= a <= 0x0aff_ffff || 0xac10_0000 <= a
            <= 0xac1f_ffff || 0xc0a8_0000 <= a <= 0xc0a8_ffff || 0x7f00_0000 <= a <= 0x7fff_ffff
            || 0xa9fe_0000 <= a <= 0xa9fe_ffff),
{
    assert((a >> 24u32 == 10u32) <==> (0x0a00_0000 <= a && a <= 0x0aff_ffff)) by (bit_vector);
    assert((a >> 20u32 == 0xac1u32) <==> (0xac10_0000 <= a && a <= 0xac1f_ffff)) by (bit_vector);
    assert((a >> 16u32 == 0xc0a8u32) <==> (0xc0a8_0000 <= a && a <= 0xc0a8_ffff)) by (bit_vector);
    assert((a >> 24u32 == 127u32) <==> (0x7f00_0000 <= a && a <= 0x7fff_ffff)) by (bit_vector);
    assert((a >> 16u32 == 0xa9feu32) <==> (0xa9fe_0000 <= a && a <= 0xa9fe_ffff)) by (bit_vector);
}

/// The only IPv6 target that is auto-trusted is the loopback `::1`, and a
/// text that is not an IP address (a domain) never is.
pub proof fn lemma_private_non_v4(target: Seq<char>)
    ensures
        ip_addr_parse(target) matches Some(IpAddress::V6(a)) ==> (is_private_address(target)
            <==> a == 1),
        ip_addr_parse(target) is None ==> !is_private_address(target),
{
}

/// Every pattern that holds a `/`, IPv4 or IPv6 alike, is registered as a
/// range; a pattern without one is a single address exactly when it parses
/// as an IP address, and a domain otherwise.
pub proof fn lemma_category_of_patterns(pattern: Seq<char>)
    ensures
        pattern.contains('/') ==> category_of(pattern) == ScopeCategory::IpRange,
        !pattern.contains('/') ==> (category_of(pattern) == ScopeCategory::Ip <==> ip_addr_parse(
            pattern,
        ) is Some),
        !pattern.contains('/') ==> (category_of(pattern) == ScopeCategory::Domain <==> ip_addr_parse(
            pattern,
        ) is None),
{
}

} // verus!
