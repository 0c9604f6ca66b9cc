use netawait::addresses::AddressOperation;
use netawait::header::Header;
use netawait::link;
use netawait::route;
use netawait::sockaddr::{encode_sockaddr_v4, AddressParseError, IpAddress, SockAddr};

fn route_msg(ty: u8, index: u16, flags: i32, addrs_mask: i32, payload: &[u8]) -> Vec<u8> {
    let mut v = vec![0u8; 92];
    let len = (92 + payload.len()) as u16;
    v[0..2].copy_from_slice(&len.to_le_bytes());
    v[2] = 5;
    v[3] = ty;
    v[4..6].copy_from_slice(&index.to_le_bytes());
    v[8..12].copy_from_slice(&flags.to_le_bytes());
    v[12..16].copy_from_slice(&addrs_mask.to_le_bytes());
    v.extend_from_slice(payload);
    v
}

fn link_msg(ty: u8, index: u16, flags: i32, addrs_mask: i32, payload: &[u8]) -> Vec<u8> {
    let mut v = vec![0u8; 112];
    let len = (112 + payload.len()) as u16;
    v[0..2].copy_from_slice(&len.to_le_bytes());
    v[2] = 5;
    v[3] = ty;
    v[4..8].copy_from_slice(&addrs_mask.to_le_bytes());
    v[8..12].copy_from_slice(&flags.to_le_bytes());
    v[12..14].copy_from_slice(&index.to_le_bytes());
    v.extend_from_slice(payload);
    v
}

fn addr_msg(ty: u8, index: u16, flags: i32, metric: i32, addrs_mask: i32, payload: &[u8]) -> Vec<u8> {
    let mut v = vec![0u8; 20];
    let len = (20 + payload.len()) as u16;
    v[0..2].copy_from_slice(&len.to_le_bytes());
    v[2] = 5;
    v[3] = ty;
    v[4..8].copy_from_slice(&addrs_mask.to_le_bytes());
    v[8..12].copy_from_slice(&flags.to_le_bytes());
    v[12..14].copy_from_slice(&index.to_le_bytes());
    v[16..20].copy_from_slice(&metric.to_le_bytes());
    v.extend_from_slice(payload);
    v
}

fn dl_record(index: u16, name: &str) -> Vec<u8> {
    let mut v = vec![20u8, 18u8];
    v.extend_from_slice(&index.to_le_bytes());
    v.push(0);
    v.push(name.len() as u8);
    v.push(0);
    v.push(0);
    v.extend_from_slice(name.as_bytes());
    while v.len() < 20 {
        v.push(0);
    }
    v
}

#[test]
fn decodes_route_get_message() {
    let mut payload = encode_sockaddr_v4(0, 0);
    payload.extend_from_slice(&encode_sockaddr_v4(0, 0xC0A80101));
    // RTM_GET, flags RTF_UP | RTF_GATEWAY, mask RTA_DST | RTA_GATEWAY.
    let msg = route_msg(0x4, 3, 0x1 | 0x2, 0x1 | 0x2, &payload);
    let header = Header::from_raw(&msg).unwrap().unwrap();
    assert_eq!(header.index(), 3);
    match &header {
        Header::Route(info) => {
            assert_eq!(info.operation, route::MessageType::Get);
            assert!(info.flags.is_up());
            assert!(info.flags.has_gateway());
            match &info.addrs.gateway {
                Some(SockAddr::V4(a)) => assert_eq!(a.addr, 0xC0A80101),
                other => panic!("expected an IPv4 gateway, got {other:?}"),
            }
        }
        other => panic!("expected a route event, got {other:?}"),
    }
}

#[test]
fn decodes_route_metrics() {
    let mut msg = route_msg(0x1, 0, 0x1, 0, &[]);
    // The metrics block starts at offset 36: locks, mtu, hopcount,
    // expire, then the pipe and timing words, the packet count and the
    // state word.
    msg[40..44].copy_from_slice(&1500u32.to_le_bytes());
    msg[44..48].copy_from_slice(&2u32.to_le_bytes());
    msg[48..52].copy_from_slice(&(-7i32).to_le_bytes());
    msg[72..76].copy_from_slice(&9u32.to_le_bytes());
    msg[76..80].copy_from_slice(&5u32.to_le_bytes());
    let header = Header::from_raw(&msg).unwrap().unwrap();
    match header {
        Header::Route(info) => {
            assert_eq!(info.metrics.mtu, 1500);
            assert_eq!(info.metrics.hopcount, 2);
            assert_eq!(info.metrics.expire, -7);
            assert_eq!(info.metrics.packets_sent, 9);
            assert_eq!(info.metrics.state, 5);
            assert_eq!(info.metrics.rtt, 0);
        }
        other => panic!("expected a route event, got {other:?}"),
    }
}

#[test]
fn length_mismatch_is_fatal() {
    let mut msg = route_msg(0x4, 0, 0, 0, &[]);
    msg[0..2].copy_from_slice(&200u16.to_le_bytes());
    assert_eq!(
        Header::from_raw(&msg).unwrap_err(),
        AddressParseError::LengthMismatch
    );
}

#[test]
fn unknown_message_type_is_dropped() {
    // 0x7 (a routing miss report) is not a kind this tool consumes.
    let msg = route_msg(0x7, 0, 0, 0, &[]);
    assert!(Header::from_raw(&msg).unwrap().is_none());
}

#[test]
fn old_style_route_kinds_are_dropped() {
    let msg = route_msg(0x9, 0, 0, 0, &[]);
    assert!(Header::from_raw(&msg).unwrap().is_none());
}

#[test]
fn decodes_link_info_message() {
    let payload = dl_record(7, "en0");
    // RTM_IFINFO, flags IFF_UP | IFF_RUNNING, mask RTA_IFP.
    let msg = link_msg(0xe, 7, 0x1 | 0x40, 0x10, &payload);
    let header = Header::from_raw(&msg).unwrap().unwrap();
    assert_eq!(header.index(), 7);
    match &header {
        Header::Link(info) => {
            assert_eq!(info.operation, link::MessageType::Info);
            assert!(info.flags.is_up());
            assert!(info.flags.is_running());
            let la = info.addrs.interface_link.as_ref().unwrap();
            assert_eq!(la.index, 7);
            assert_eq!(la.interface_name, "en0");
        }
        other => panic!("expected a link event, got {other:?}"),
    }
}

#[test]
fn decodes_new_address_message() {
    let payload = encode_sockaddr_v4(0, 0xC000020A);
    // RTM_NEWADDR, flags RTF_UP, mask RTA_IFA.
    let msg = addr_msg(0xc, 7, 0x1, 42, 0x20, &payload);
    let header = Header::from_raw(&msg).unwrap().unwrap();
    assert_eq!(header.index(), 7);
    match &header {
        Header::Address(info) => {
            assert_eq!(info.operation, AddressOperation::Add);
            assert_eq!(info.metric, 42);
            assert!(info.flags.is_up());
            assert!(!info.flags.is_dead());
            match &info.addrs.interface_addr {
                Some(SockAddr::V4(a)) => assert_eq!(a.addr, 0xC000020A),
                other => panic!("expected an IPv4 interface address, got {other:?}"),
            }
        }
        other => panic!("expected an address event, got {other:?}"),
    }
}

#[test]
fn short_message_is_partial_data() {
    let msg = [3u8, 0, 5];
    assert_eq!(
        Header::from_raw(&msg).unwrap_err(),
        AddressParseError::PartialData
    );
}

#[test]
fn route_message_with_raw_netmask_decodes() {
    // A destination record followed by a bare 4-byte netmask with no
    // family byte: the fallback sizes it after the IPv4 destination and
    // the event comes out without error.
    let mut payload = encode_sockaddr_v4(0, 0x0A000000);
    payload.extend_from_slice(&[255, 255, 0, 0]);
    let msg = route_msg(0x4, 0, 0x1, 0x1 | 0x4, &payload);
    let header = Header::from_raw(&msg).unwrap().unwrap();
    match header {
        Header::Route(info) => {
            assert_eq!(info.addrs.netmask, Some(IpAddress::V4(0xFFFF0000)));
        }
        other => panic!("expected a route event, got {other:?}"),
    }
}
