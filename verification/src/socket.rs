//! The byte-exact request messages written to the route socket, the
//! per-socket sequence counter, and the errors of the socket layer.
//!
//! Opening, reading and writing the socket itself is platform I/O and
//! lives outside this crate; it hands complete messages in and takes
//! complete request buffers out.

use vstd::prelude::*;

use crate::bytes::{le16_bytes, le32_bytes, put_le16, put_le32, put_zeros, zeros};
use crate::consts::{
    AF_LINK, RTA_DST, RTA_IFA, RTA_IFP, RTA_NETMASK, RTF_GATEWAY, RTF_HOST, RTF_IFSCOPE, RTF_UP,
    RTM_GET, RTM_VERSION, RTV_HOPCOUNT, RT_METRICS_LEN, SOCKADDR_DL_LEN,
};
use crate::sockaddr::{sockaddr_v4_bytes, AddressParseError};
use crate::sockaddr::encode_sockaddr_v4;

verus! {

/// Declares `std::io::Error` so the error enums below can carry the
/// platform's I/O errors through as opaque values.
#[verifier::external_type_specification]
#[verifier::external_body]
pub struct ExIoError(std::io::Error);

/// Relies on `std::io::Error::raw_os_error`: the operating-system error
/// code underlying the error, when there is one.
pub assume_specification[ std::io::Error::raw_os_error ](e: &std::io::Error) -> Option<i32>;

/// Failure of one receive-and-decode step.
#[derive(Debug)]
pub enum ReadError {
    /// The overall timeout expired before the condition was met.
    Timeout,
    /// The socket read or write failed.
    IO(std::io::Error),
    /// A received message could not be decoded.
    ParsingAddress(AddressParseError),
}

/// The operating-system error codes that mean a read timed out on the
/// supported platforms ("resource temporarily unavailable" and
/// "operation timed out").
pub open spec fn timeout_code(code: Option<i32>) -> bool {
    code matches Some(c) && (c == 11 || c == 35)
}

/// Sorts an operating-system error code into the read-error taxonomy:
/// the two timeout codes become `Timeout`, everything else keeps the
/// error as `IO`.
pub fn classify_os_error(code: Option<i32>, value: std::io::Error) -> (r: ReadError)
    ensures
        timeout_code(code) ==> r is Timeout,
        !timeout_code(code) ==> r matches ReadError::IO(_),
{
    match code {
        Some(c) => if c == 11 || c == 35 {
            ReadError::Timeout
        } else {
            ReadError::IO(value)
        },
        None => ReadError::IO(value),
    }
}

impl ReadError {
    /// Classifies an I/O error by its OS code; whatever the code came
    /// back as, the result is a timeout or an I/O failure, never a
    /// parse failure.
    pub fn from_io(value: std::io::Error) -> (r: ReadError)
        ensures
            r is Timeout || r matches ReadError::IO(_),
    {
        let code = value.raw_os_error();
        classify_os_error(code, value)
    }
}

/// Failure to open the route socket.
#[derive(Debug)]
pub enum RouteSocketCreateError {
    /// The event queue used for the timeout could not be created.
    CreatingKqueue(std::io::Error),
    /// The raw routing-family socket could not be created.
    CreatingSocket(std::io::Error),
}

/// The per-socket sequence counter: request sequence numbers increase
/// monotonically, starting at 1, and the kernel echoes them back.
pub struct SequenceCounter {
    pub seq: i32,
}

impl SequenceCounter {
    pub fn new() -> (r: Self)
        ensures
            r.seq == 0,
    {
        Self { seq: 0 }
    }

    /// The next sequence number: one more than the last one handed out.
    pub fn get_seq(&mut self) -> (r: i32)
        requires
            old(self).seq < i32::MAX,
        ensures
            final(self).seq == old(self).seq + 1,
            r == final(self).seq,
    {
        self.seq = self.seq + 1;
        self.seq
    }
}

/// The bytes of a route-message header: length, version and type, the
/// interface index, the flag and address-mask words, the sequence
/// number, the metric-initialization word, and zeroes everywhere else
/// (the pid, errno and use fields, and the whole metrics block).
pub open spec fn rt_msghdr_bytes(
    msglen: u16,
    ty: u8,
    index: u16,
    flags: u32,
    addrs: u32,
    seq: u32,
    inits: u32,
) -> Seq<u8> {
    le16_bytes(msglen) + seq![RTM_VERSION, ty] + le16_bytes(index) + zeros(2) + le32_bytes(flags)
        + le32_bytes(addrs) + le32_bytes(0) + le32_bytes(seq) + le32_bytes(0) + le32_bytes(0)
        + le32_bytes(inits) + zeros(RT_METRICS_LEN as nat)
}

/// Appends a route-message header.
fn push_rt_msghdr(
    v: &mut Vec<u8>,
    msglen: u16,
    ty: u8,
    index: u16,
    flags: u32,
    addrs: u32,
    seq: u32,
    inits: u32,
)
    requires
        old(v)@.len() + 92 <= usize::MAX,
    ensures
        final(v)@ == old(v)@ + rt_msghdr_bytes(msglen, ty, index, flags, addrs, seq, inits),
{
    put_le16(v, msglen);
    v.push(RTM_VERSION);
    v.push(ty);
    put_le16(v, index);
    put_zeros(v, 2);
    put_le32(v, flags);
    put_le32(v, addrs);
    put_le32(v, 0);
    put_le32(v, seq);
    put_le32(v, 0);
    put_le32(v, 0);
    put_le32(v, inits);
    put_zeros(v, RT_METRICS_LEN);
    proof {
        assert(final(v)@ =~= old(v)@ + rt_msghdr_bytes(msglen, ty, index, flags, addrs, seq, inits));
    }
}

/// The bytes of a link-layer socket-address record that carries only an
/// interface index: declared length, link family, the index in host
/// order, and zeroes for the type, the three sub-lengths and the data
/// region.
pub open spec fn sockaddr_dl_bytes(index: u16) -> Seq<u8> {
    seq![SOCKADDR_DL_LEN as u8, AF_LINK] + le16_bytes(index) + zeros(16)
}

/// The default-IPv4 query: a route-get header asking for an up gateway
/// route with destination and netmask slots, followed by two all-zero
/// IPv4 socket-address records (destination, then netmask).
pub open spec fn default_ipv4_request_bytes(seq: i32) -> Seq<u8> {
    rt_msghdr_bytes(
        124,
        RTM_GET,
        0,
        (RTF_UP | RTF_GATEWAY) as u32,
        (RTA_DST | RTA_NETMASK) as u32,
        seq as u32,
        RTV_HOPCOUNT,
    ) + sockaddr_v4_bytes(0, 0) + sockaddr_v4_bytes(0, 0)
}

/// Builds the default-IPv4 query with the given sequence number.
pub fn default_ipv4_request(seq: i32) -> (r: Vec<u8>)
    ensures
        r@ == default_ipv4_request_bytes(seq),
        r@.len() == 124,
{
    let mut v: Vec<u8> = Vec::new();
    push_rt_msghdr(
        &mut v,
        124,
        RTM_GET,
        0,
        (RTF_UP | RTF_GATEWAY) as u32,
        (RTA_DST | RTA_NETMASK) as u32,
        seq as u32,
        RTV_HOPCOUNT,
    );
    let mut dst = encode_sockaddr_v4(0, 0);
    v.append(&mut dst);
    let mut mask = encode_sockaddr_v4(0, 0);
    v.append(&mut mask);
    proof {
        assert(v@ =~= default_ipv4_request_bytes(seq));
    }
    v
}

/// The interface-info query: a route-get header scoped to the given
/// interface index, asking for destination, interface-link and
/// interface-address slots, followed by a link-family socket-address
/// record carrying the index.
pub open spec fn interface_info_req_bytes(if_idx: u16, seq: i32) -> Seq<u8> {
    rt_msghdr_bytes(
        112,
        RTM_GET,
        if_idx,
        (RTF_IFSCOPE | RTF_HOST) as u32,
        (RTA_DST | RTA_IFP | RTA_IFA) as u32,
        seq as u32,
        0,
    ) + sockaddr_dl_bytes(if_idx)
}

/// Builds the interface-info query for the given interface index and
/// sequence number.
pub fn interface_info_req(if_idx: u16, seq: i32) -> (r: Vec<u8>)
    ensures
        r@ == interface_info_req_bytes(if_idx, seq),
        r@.len() == 112,
{
    let mut v: Vec<u8> = Vec::new();
    push_rt_msghdr(
        &mut v,
        112,
        RTM_GET,
        if_idx,
        (RTF_IFSCOPE | RTF_HOST) as u32,
        (RTA_DST | RTA_IFP | RTA_IFA) as u32,
        seq as u32,
        0,
    );
    v.push(SOCKADDR_DL_LEN as u8);
    v.push(AF_LINK);
    put_le16(&mut v, if_idx);
    put_zeros(&mut v, 16);
    proof {
        assert(v@ =~= interface_info_req_bytes(if_idx, seq));
    }
    v
}

} // verus!
