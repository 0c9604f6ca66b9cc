//! The address ranges that count as "not real connectivity": the IPv4
//! loopback and link-local ranges, and the IPv6 loopback address and
//! link-local range. Membership is decided by `ipnetwork`, whose
//! mask-based containment check the contracts here state exactly.

use vstd::prelude::*;

verus! {

/// 127.0.0.0, the base of the IPv4 loopback range (prefix 8).
pub const LOCAL_IPV4_NET: u32 = 0x7f000000;

/// 169.254.0.0, the base of the IPv4 link-local range (prefix 16).
pub const LINK_LOCAL_IPV4_NET: u32 = 0xa9fe0000;

/// ::1, the IPv6 loopback address.
pub const LOCAL_IPV6_ADDR: u128 = 1;

/// fe80::, the base of the IPv6 link-local range (prefix 10).
pub const LINK_LOCAL_IPV6_NET: u128 = 0xfe800000000000000000000000000000;

/// The IPv4 mask with `prefix` leading one bits, as `ipnetwork`
/// computes it.
pub open spec fn v4_mask(prefix: u8) -> u32
    recommends
        prefix <= 32,
{
    !((0xffffffffu64 >> prefix) as u32)
}

/// The IPv6 mask with `prefix` leading one bits, as `ipnetwork`
/// computes it.
pub open spec fn v6_mask(prefix: u8) -> u128
    recommends
        prefix <= 128,
{
    if prefix == 0 {
        0
    } else {
        u128::MAX << ((128 - prefix) as u128)
    }
}

/// An IPv4 address lies in `net/prefix` when it agrees with `net` on
/// the mask's bits.
pub open spec fn in_v4_net(ip: u32, net: u32, prefix: u8) -> bool {
    ip & v4_mask(prefix) == net & v4_mask(prefix)
}

/// An IPv6 address lies in `net/prefix` when it agrees with `net` on
/// the mask's bits.
pub open spec fn in_v6_net(ip: u128, net: u128, prefix: u8) -> bool {
    ip & v6_mask(prefix) == net & v6_mask(prefix)
}

/// Relies on `ipnetwork::Ipv4Network::new` and `::contains`: for a
/// prefix of at most 32, `new` accepts, and `contains` reports
/// agreement with the network address on the first `prefix` bits.
#[verifier::external_body]
pub(crate) fn ipv4_network_contains(net: u32, prefix: u8, ip: u32) -> (r: bool)
    requires
        prefix <= 32,
    ensures
        r == in_v4_net(ip, net, prefix),
{
    let network = ipnetwork::Ipv4Network::new(core::net::Ipv4Addr::from(net), prefix).unwrap();
    network.contains(core::net::Ipv4Addr::from(ip))
}

/// Relies on `ipnetwork::Ipv6Network::new` and `::contains`: for a
/// prefix of at most 128, `new` accepts, and `contains` reports
/// agreement with the network address on the first `prefix` bits.
#[verifier::external_body]
pub(crate) fn ipv6_network_contains(net: u128, prefix: u8, ip: u128) -> (r: bool)
    requires
        prefix <= 128,
    ensures
        r == in_v6_net(ip, net, prefix),
{
    let network = ipnetwork::Ipv6Network::new(core::net::Ipv6Addr::from(net), prefix).unwrap();
    network.contains(core::net::Ipv6Addr::from(ip))
}

/// An IPv4 address that does not mean real connectivity: loopback
/// (first octet 127, that is 127.0.0.0/8) or link-local (first two
/// octets 169.254, that is 169.254.0.0/16).
pub open spec fn is_local_v4(ip: u32) -> bool {
    ip >> 24 == 127 || ip >> 16 == 0xa9fe
}

/// An IPv6 address that does not mean real connectivity: the loopback
/// address ::1, or link-local (top ten bits 1111111010, that is
/// fe80::/10).
pub open spec fn is_local_v6(ip: u128) -> bool {
    ip == LOCAL_IPV6_ADDR || ip >> 118 == 0x3fa
}

/// The mask-based IPv4 range tests mean exactly the bitwise ones:
/// 127.0.0.0/8 holds the addresses whose first octet is 127, and
/// 169.254.0.0/16 those whose first two octets are 169.254.
pub proof fn lemma_v4_ranges_bitwise(ip: u32)
    ensures
        in_v4_net(ip, LOCAL_IPV4_NET, 8) <==> ip >> 24 == 127,
        in_v4_net(ip, LINK_LOCAL_IPV4_NET, 16) <==> ip >> 16 == 0xa9fe,
{
    assert((ip & !((0xffffffffu64 >> 8) as u32) == 0x7f000000u32 & !((0xffffffffu64 >> 8) as u32))
        <==> ip >> 24 == 127) by (bit_vector);
    assert((ip & !((0xffffffffu64 >> 16) as u32) == 0xa9fe0000u32 & !((0xffffffffu64
        >> 16) as u32)) <==> ip >> 16 == 0xa9fe) by (bit_vector);
}

/// The mask-based IPv6 range test means exactly the bitwise one:
/// fe80::/10 holds the addresses whose top ten bits are 1111111010.
pub proof fn lemma_v6_range_bitwise(ip: u128)
    ensures
        in_v6_net(ip, LINK_LOCAL_IPV6_NET, 10) <==> ip >> 118 == 0x3fa,
{
    assert((ip & (u128::MAX << 118) == 0xfe800000000000000000000000000000u128 & (u128::MAX
        << 118)) <==> ip >> 118 == 0x3fa) by (bit_vector);
}

} // verus!
