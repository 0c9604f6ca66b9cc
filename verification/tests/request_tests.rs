use netawait::socket::{default_ipv4_request, interface_info_req, SequenceCounter};

#[test]
fn default_route_request_is_byte_exact() {
    let req = default_ipv4_request(1);
    assert_eq!(req.len(), 124);
    // Header: length, version, type, index.
    assert_eq!(u16::from_le_bytes([req[0], req[1]]), 124);
    assert_eq!(req[2], 5);
    assert_eq!(req[3], 0x4);
    assert_eq!(u16::from_le_bytes([req[4], req[5]]), 0);
    // Flags RTF_UP | RTF_GATEWAY; mask RTA_DST | RTA_NETMASK.
    assert_eq!(i32::from_le_bytes([req[8], req[9], req[10], req[11]]), 0x3);
    assert_eq!(i32::from_le_bytes([req[12], req[13], req[14], req[15]]), 0x5);
    // Sequence number and the hop-count init bit.
    assert_eq!(i32::from_le_bytes([req[20], req[21], req[22], req[23]]), 1);
    assert_eq!(u32::from_le_bytes([req[32], req[33], req[34], req[35]]), 0x2);
    // The metrics block is all zero.
    assert!(req[36..92].iter().all(|b| *b == 0));
    // Two all-zero IPv4 records: destination, then netmask.
    assert_eq!(req[92], 16);
    assert_eq!(req[93], 2);
    assert!(req[94..108].iter().all(|b| *b == 0));
    assert_eq!(req[108], 16);
    assert_eq!(req[109], 2);
    assert!(req[110..124].iter().all(|b| *b == 0));
}

#[test]
fn interface_info_request_is_byte_exact() {
    let req = interface_info_req(7, 2);
    assert_eq!(req.len(), 112);
    assert_eq!(u16::from_le_bytes([req[0], req[1]]), 112);
    assert_eq!(req[2], 5);
    assert_eq!(req[3], 0x4);
    // The queried interface index, also carried by the trailing record.
    assert_eq!(u16::from_le_bytes([req[4], req[5]]), 7);
    // Flags RTF_IFSCOPE | RTF_HOST; mask RTA_DST | RTA_IFP | RTA_IFA.
    assert_eq!(
        i32::from_le_bytes([req[8], req[9], req[10], req[11]]),
        0x1000000 | 0x4
    );
    assert_eq!(
        i32::from_le_bytes([req[12], req[13], req[14], req[15]]),
        0x1 | 0x10 | 0x20
    );
    assert_eq!(i32::from_le_bytes([req[20], req[21], req[22], req[23]]), 2);
    assert!(req[36..92].iter().all(|b| *b == 0));
    // The link-family record carrying the index.
    assert_eq!(req[92], 20);
    assert_eq!(req[93], 18);
    assert_eq!(u16::from_le_bytes([req[94], req[95]]), 7);
    assert!(req[96..112].iter().all(|b| *b == 0));
}

#[test]
fn sequence_numbers_start_at_one_and_increase() {
    let mut counter = SequenceCounter::new();
    assert_eq!(counter.get_seq(), 1);
    assert_eq!(counter.get_seq(), 2);
    assert_eq!(counter.get_seq(), 3);
}

#[test]
fn requests_carry_their_sequence_number() {
    let mut counter = SequenceCounter::new();
    let first = default_ipv4_request(counter.get_seq());
    let second = default_ipv4_request(counter.get_seq());
    assert_eq!(
        i32::from_le_bytes([first[20], first[21], first[22], first[23]]),
        1
    );
    assert_eq!(
        i32::from_le_bytes([second[20], second[21], second[22], second[23]]),
        2
    );
}
