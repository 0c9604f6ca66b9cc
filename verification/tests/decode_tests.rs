use netawait::addresses::{AddressFlags, AddressSet};
use netawait::sockaddr::{
    encode_sockaddr_v4, parse_address, parse_ip, parse_link, AddressParseError, IpAddress,
    SockAddr,
};

fn v4_record(port: u16, addr: u32) -> Vec<u8> {
    encode_sockaddr_v4(port, addr)
}

fn v6_record(port: u16, flowinfo: u32, addr: u128, scope_id: u32) -> Vec<u8> {
    let mut v = vec![28u8, 30u8];
    v.extend_from_slice(&port.to_be_bytes());
    v.extend_from_slice(&flowinfo.to_le_bytes());
    v.extend_from_slice(&addr.to_be_bytes());
    v.extend_from_slice(&scope_id.to_le_bytes());
    v
}

fn link_record(index: u16, name: &str, lladdr: &[u8]) -> Vec<u8> {
    let mut v = vec![20u8, 18u8];
    v.extend_from_slice(&index.to_le_bytes());
    v.push(0);
    v.push(name.len() as u8);
    v.push(lladdr.len() as u8);
    v.push(0);
    v.extend_from_slice(name.as_bytes());
    v.extend_from_slice(lladdr);
    while v.len() < 20 {
        v.push(0);
    }
    v
}

#[test]
fn decodes_ipv4_record() {
    let data = v4_record(80, 0xC0A80101);
    let (sa, consumed) = parse_address(&data).unwrap();
    assert_eq!(consumed, 16);
    match sa {
        Some(SockAddr::V4(a)) => {
            assert_eq!(a.port, 80);
            assert_eq!(a.addr, 0xC0A80101);
        }
        other => panic!("expected an IPv4 record, got {other:?}"),
    }
}

#[test]
fn decodes_ipv6_record() {
    let data = v6_record(443, 7, 0x20010DB8_0000_0000_0000_0000_0000_0001, 3);
    let (sa, consumed) = parse_address(&data).unwrap();
    assert_eq!(consumed, 28);
    match sa {
        Some(SockAddr::V6(a)) => {
            assert_eq!(a.port, 443);
            assert_eq!(a.flowinfo, 7);
            assert_eq!(a.addr, 0x20010DB8_0000_0000_0000_0000_0000_0001);
            assert_eq!(a.scope_id, 3);
        }
        other => panic!("expected an IPv6 record, got {other:?}"),
    }
}

#[test]
fn decodes_link_record() {
    let data = link_record(7, "en0", &[0xAA, 0xBB, 0xCC]);
    let (la, consumed) = parse_link(&data).unwrap();
    assert_eq!(consumed, 20);
    assert_eq!(la.index, 7);
    assert_eq!(la.interface_name, "en0");
    assert_eq!(la.link_layer_addr, vec![0xAA, 0xBB, 0xCC]);
}

#[test]
fn ipv4_record_round_trips() {
    let data = encode_sockaddr_v4(8080, 0x0A000001);
    let (sa, consumed) = parse_ip(&data).unwrap();
    assert_eq!(consumed, 16);
    match sa {
        SockAddr::V4(a) => {
            assert_eq!(a.port, 8080);
            assert_eq!(a.addr, 0x0A000001);
        }
        other => panic!("expected an IPv4 record, got {other:?}"),
    }
}

#[test]
fn skips_unknown_family_by_declared_length() {
    // Family 200 is not modeled: the record is skipped, but its declared
    // length is honoured so the next record decodes cleanly.
    let mut data = vec![8u8, 200u8, 1, 2, 3, 4, 5, 6];
    data.extend_from_slice(&v4_record(80, 0x08080808));
    let (sa, consumed) = parse_address(&data).unwrap();
    assert!(sa.is_none());
    assert_eq!(consumed, 8);
    let (sa2, consumed2) = parse_address(&data[consumed..]).unwrap();
    assert_eq!(consumed2, 16);
    match sa2 {
        Some(SockAddr::V4(a)) => assert_eq!(a.addr, 0x08080808),
        other => panic!("expected an IPv4 record, got {other:?}"),
    }
}

#[test]
fn zero_length_record_ends_the_stream() {
    let data = [0u8, 2u8, 0, 0];
    let (sa, consumed) = parse_address(&data).unwrap();
    assert!(sa.is_none());
    assert_eq!(consumed, 0);
}

#[test]
fn empty_slice_is_rejected() {
    assert_eq!(parse_address(&[]).unwrap_err(), AddressParseError::DataEmpty);
    assert_eq!(parse_ip(&[]).unwrap_err(), AddressParseError::DataEmpty);
    assert_eq!(parse_link(&[]).unwrap_err(), AddressParseError::DataEmpty);
}

#[test]
fn oversized_declared_length_is_partial_data() {
    let data = [30u8, 2u8, 0, 0];
    assert_eq!(
        parse_address(&data).unwrap_err(),
        AddressParseError::PartialData
    );
}

#[test]
fn parse_ip_rejects_other_families() {
    let data = link_record(7, "en0", &[]);
    assert_eq!(
        parse_ip(&data).unwrap_err(),
        AddressParseError::WrongFamily(2, 18)
    );
}

#[test]
fn renders_link_record_for_logging() {
    let data = link_record(7, "en0", &[0xAA, 0xBB, 0xCC]);
    let (la, _) = parse_link(&data).unwrap();
    assert_eq!(
        la.print_self(),
        "\n        index: 7\n        link addr: AA:BB:CC\n        if name: en0\n        "
    );
}

#[test]
fn renders_address_flags_for_logging() {
    let s = AddressFlags::new(0x1 | 0x2).print_self();
    assert_eq!(
        s,
        "\n        has dest: true,\n        has gateway: true,\n        has netmask: false,\n        has genmask: false,\n        has ifa: false,\n        has ifp: false,\n        has author: false,\n        has broadcast: false\n"
    );
}

#[test]
fn address_set_respects_mask_and_order() {
    // RTA_DST | RTA_GATEWAY: the first record is the destination, the
    // second the gateway; everything else stays empty.
    let mut data = v4_record(0, 0x00000000);
    data.extend_from_slice(&v4_record(0, 0xC0A80101));
    let set = AddressSet::from_raw(&data, &AddressFlags::new(0x1 | 0x2)).unwrap();
    match set.destination {
        Some(SockAddr::V4(a)) => assert_eq!(a.addr, 0),
        other => panic!("expected an IPv4 destination, got {other:?}"),
    }
    match set.gateway {
        Some(SockAddr::V4(a)) => assert_eq!(a.addr, 0xC0A80101),
        other => panic!("expected an IPv4 gateway, got {other:?}"),
    }
    assert!(set.netmask.is_none());
    assert!(set.genmask.is_none());
    assert!(set.broadcast.is_none());
    assert!(set.interface_addr.is_none());
    assert!(set.interface_link.is_none());
}

#[test]
fn address_set_returns_partial_set_on_truncated_stream() {
    // The mask announces a destination and a gateway but the region ends
    // after the destination: the partial set is returned without error.
    let data = v4_record(0, 0x0A000001);
    let set = AddressSet::from_raw(&data, &AddressFlags::new(0x1 | 0x2)).unwrap();
    assert!(set.destination.is_some());
    assert!(set.gateway.is_none());
}

#[test]
fn netmask_fallback_uses_destination_family() {
    // The netmask record has no usable family byte (it is raw mask
    // bytes); the preceding IPv4 destination fixes its size at 4 bytes.
    let mut data = v4_record(0, 0x0A000000);
    data.extend_from_slice(&[255, 255, 0, 0]);
    let set = AddressSet::from_raw(&data, &AddressFlags::new(0x1 | 0x4)).unwrap();
    assert_eq!(set.netmask, Some(IpAddress::V4(0xFFFF0000)));
}

#[test]
fn netmask_fallback_needs_a_prior_family() {
    // With no destination or gateway before it, the unusable netmask
    // record's own failure is propagated.
    let data = [255u8, 255, 0, 0];
    let err = AddressSet::from_raw(&data, &AddressFlags::new(0x4)).unwrap_err();
    assert_eq!(err, AddressParseError::WrongFamily(2, 255));
}

#[test]
fn author_record_is_discarded() {
    // RTA_AUTHOR (0x40) then RTA_BRD (0x80): the author record is
    // consumed but not kept, and the broadcast lands in its slot.
    let mut data = v4_record(0, 0x01010101);
    data.extend_from_slice(&v4_record(0, 0x0A0000FF));
    let set = AddressSet::from_raw(&data, &AddressFlags::new(0x40 | 0x80)).unwrap();
    assert_eq!(set.broadcast, Some(IpAddress::V4(0x0A0000FF)));
    assert!(set.destination.is_none());
    assert!(set.interface_addr.is_none());
}
