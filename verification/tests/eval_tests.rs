use netawait::eval::{
    evaluate, exit_code, initial_request, is_not_local_addr, is_ready_default_route, to_ifspec,
    InterfaceCondition, InterfaceSpec, WaitCondition,
};
use netawait::header::Header;
use netawait::sockaddr::{encode_sockaddr_v4, AddressParseError, Inet4, Inet6, SockAddr};
use netawait::socket::ReadError;

fn evt_route_msg(ty: u8, index: u16, flags: i32, addrs_mask: i32, payload: &[u8]) -> Vec<u8> {
    let mut v = vec![0u8; 92];
    let len = (92 + payload.len()) as u16;
    v[0..2].copy_from_slice(&len.to_le_bytes());
    v[2] = 5;
    v[3] = ty;
    v[4..6].copy_from_slice(&index.to_le_bytes());
    v[8..12].copy_from_slice(&flags.to_le_bytes());
    v[12..16].copy_from_slice(&addrs_mask.to_le_bytes());
    v.extend_from_slice(payload);
    v
}

fn evt_link_msg(index: u16, flags: i32, addrs_mask: i32, payload: &[u8]) -> Vec<u8> {
    let mut v = vec![0u8; 112];
    let len = (112 + payload.len()) as u16;
    v[0..2].copy_from_slice(&len.to_le_bytes());
    v[2] = 5;
    v[3] = 0xe;
    v[4..8].copy_from_slice(&addrs_mask.to_le_bytes());
    v[8..12].copy_from_slice(&flags.to_le_bytes());
    v[12..14].copy_from_slice(&index.to_le_bytes());
    v.extend_from_slice(payload);
    v
}

fn evt_addr_msg(index: u16, flags: i32, addrs_mask: i32, payload: &[u8]) -> Vec<u8> {
    let mut v = vec![0u8; 20];
    let len = (20 + payload.len()) as u16;
    v[0..2].copy_from_slice(&len.to_le_bytes());
    v[2] = 5;
    v[3] = 0xc;
    v[4..8].copy_from_slice(&addrs_mask.to_le_bytes());
    v[8..12].copy_from_slice(&flags.to_le_bytes());
    v[12..14].copy_from_slice(&index.to_le_bytes());
    v.extend_from_slice(payload);
    v
}

fn evt_dl_record(index: u16, name: &str) -> Vec<u8> {
    let mut v = vec![20u8, 18u8];
    v.extend_from_slice(&index.to_le_bytes());
    v.push(0);
    v.push(name.len() as u8);
    v.push(0);
    v.push(0);
    v.extend_from_slice(name.as_bytes());
    while v.len() < 20 {
        v.push(0);
    }
    v
}

fn decode(msg: &[u8]) -> Header {
    Header::from_raw(msg).unwrap().unwrap()
}

#[test]
fn default_route_event_satisfies_the_wait() {
    let mut payload = encode_sockaddr_v4(0, 0);
    payload.extend_from_slice(&encode_sockaddr_v4(0, 0xC0A80101));
    let msg = evt_route_msg(0x4, 0, 0x1 | 0x2, 0x1 | 0x2, &payload);
    let event = decode(&msg);
    assert!(is_ready_default_route(&event));
    let mut cond = WaitCondition::AnyDefaultRoute;
    assert!(evaluate(&mut cond, &event));
}

#[test]
fn non_default_destination_keeps_waiting() {
    let mut payload = encode_sockaddr_v4(0, 0x0A000000);
    payload.extend_from_slice(&encode_sockaddr_v4(0, 0xC0A80101));
    let msg = evt_route_msg(0x4, 0, 0x1 | 0x2, 0x1 | 0x2, &payload);
    let event = decode(&msg);
    assert!(!is_ready_default_route(&event));
    let mut cond = WaitCondition::AnyDefaultRoute;
    assert!(!evaluate(&mut cond, &event));
}

#[test]
fn route_without_gateway_keeps_waiting() {
    let payload = encode_sockaddr_v4(0, 0);
    let msg = evt_route_msg(0x4, 0, 0x1, 0x1, &payload);
    assert!(!is_ready_default_route(&decode(&msg)));
}

#[test]
fn deleted_route_keeps_waiting() {
    let mut payload = encode_sockaddr_v4(0, 0);
    payload.extend_from_slice(&encode_sockaddr_v4(0, 0xC0A80101));
    let msg = evt_route_msg(0x2, 0, 0x1 | 0x2, 0x1 | 0x2, &payload);
    assert!(!is_ready_default_route(&decode(&msg)));
}

#[test]
fn name_scoped_condition_adopts_index_then_matches_address() {
    // The interface is known only by name. A link event names it and
    // reveals index 7: the condition latches the index but is not yet
    // satisfied. An address event for index 7 with a usable address
    // then satisfies it.
    let mut cond = WaitCondition::Interface(
        InterfaceCondition::HasAddress,
        InterfaceSpec::Name("en0".to_string()),
    );
    let link_event = decode(&evt_link_msg(7, 0x1 | 0x40, 0x10, &evt_dl_record(7, "en0")));
    assert!(!evaluate(&mut cond, &link_event));
    match &cond {
        WaitCondition::Interface(InterfaceCondition::HasAddress, InterfaceSpec::Index(7)) => {}
        other => panic!("expected the condition to latch index 7, got {other:?}"),
    }
    let addr_event = decode(&evt_addr_msg(7, 0x1, 0x20, &encode_sockaddr_v4(0, 0xC000020A)));
    assert!(evaluate(&mut cond, &addr_event));
}

#[test]
fn other_interface_names_do_not_latch() {
    let mut cond = WaitCondition::Interface(
        InterfaceCondition::HasAddress,
        InterfaceSpec::Name("en0".to_string()),
    );
    let link_event = decode(&evt_link_msg(9, 0x1 | 0x40, 0x10, &evt_dl_record(9, "utun3")));
    assert!(!evaluate(&mut cond, &link_event));
    match &cond {
        WaitCondition::Interface(_, InterfaceSpec::Name(n)) => assert_eq!(n, "en0"),
        other => panic!("expected the condition to stay name-scoped, got {other:?}"),
    }
}

#[test]
fn link_local_address_keeps_waiting() {
    // 169.254.10.11 is link-local: not real connectivity.
    let mut cond =
        WaitCondition::Interface(InterfaceCondition::HasAddress, InterfaceSpec::Index(7));
    let addr_event = decode(&evt_addr_msg(7, 0x1, 0x20, &encode_sockaddr_v4(0, 0xA9FE0A0B)));
    assert!(!evaluate(&mut cond, &addr_event));
}

#[test]
fn wrong_interface_index_keeps_waiting() {
    let mut cond =
        WaitCondition::Interface(InterfaceCondition::HasAddress, InterfaceSpec::Index(7));
    let addr_event = decode(&evt_addr_msg(8, 0x1, 0x20, &encode_sockaddr_v4(0, 0xC000020A)));
    assert!(!evaluate(&mut cond, &addr_event));
}

#[test]
fn route_condition_needs_a_non_local_destination() {
    let mut cond = WaitCondition::Interface(InterfaceCondition::HasRoute, InterfaceSpec::Index(3));
    let good = decode(&evt_route_msg(0x1, 3, 0x1, 0x1, &encode_sockaddr_v4(0, 0x08080808)));
    assert!(evaluate(&mut cond, &good));
    let local = decode(&evt_route_msg(0x1, 3, 0x1, 0x1, &encode_sockaddr_v4(0, 0x7F000001)));
    assert!(!evaluate(&mut cond, &local));
}

#[test]
fn local_ranges_are_not_real_connectivity() {
    assert!(!is_not_local_addr(&SockAddr::V4(Inet4 { port: 0, addr: 0x7F000001 })));
    assert!(!is_not_local_addr(&SockAddr::V4(Inet4 { port: 0, addr: 0xA9FE0A0B })));
    assert!(is_not_local_addr(&SockAddr::V4(Inet4 { port: 0, addr: 0x08080808 })));
    assert!(is_not_local_addr(&SockAddr::V4(Inet4 { port: 0, addr: 0xC000020A })));
    let v6 = |addr: u128| SockAddr::V6(Inet6 { port: 0, flowinfo: 0, addr, scope_id: 0 });
    assert!(!is_not_local_addr(&v6(1)));
    assert!(!is_not_local_addr(&v6(0xFE80_0000_0000_0000_0000_0000_0000_0001)));
    assert!(is_not_local_addr(&v6(0x2001_0DB8_0000_0000_0000_0000_0000_0001)));
}

#[test]
fn initial_request_follows_the_condition() {
    let req = initial_request(&WaitCondition::AnyDefaultRoute, 1).unwrap();
    assert_eq!(req.len(), 124);
    let req = initial_request(
        &WaitCondition::Interface(InterfaceCondition::HasAddress, InterfaceSpec::Index(7)),
        2,
    )
    .unwrap();
    assert_eq!(req.len(), 112);
    assert_eq!(u16::from_le_bytes([req[4], req[5]]), 7);
    let none = initial_request(
        &WaitCondition::Interface(
            InterfaceCondition::HasAddress,
            InterfaceSpec::Name("en0".to_string()),
        ),
        3,
    );
    assert!(none.is_none());
}

#[test]
fn to_ifspec_prefers_the_looked_up_index() {
    match to_ifspec("en0", Some(4)) {
        InterfaceSpec::Index(4) => {}
        other => panic!("expected index 4, got {other:?}"),
    }
    match to_ifspec("en0", None) {
        InterfaceSpec::Name(n) => assert_eq!(n, "en0"),
        other => panic!("expected the name to be kept, got {other:?}"),
    }
}

#[test]
fn outcomes_map_to_exit_codes() {
    assert_eq!(exit_code(&Ok(())), 0);
    assert_eq!(
        exit_code(&Err(ReadError::IO(std::io::Error::from_raw_os_error(5)))),
        1
    );
    assert_eq!(exit_code(&Err(ReadError::Timeout)), 2);
    assert_eq!(
        exit_code(&Err(ReadError::ParsingAddress(AddressParseError::PartialData))),
        3
    );
}

#[test]
fn timeout_codes_become_timeouts() {
    assert!(matches!(
        ReadError::from_io(std::io::Error::from_raw_os_error(35)),
        ReadError::Timeout
    ));
    assert!(matches!(
        ReadError::from_io(std::io::Error::from_raw_os_error(11)),
        ReadError::Timeout
    ));
    assert!(matches!(
        ReadError::from_io(std::io::Error::from_raw_os_error(5)),
        ReadError::IO(_)
    ));
}
