//! Decoding of single socket-address records.
//!
//! A record begins with a one-byte length and a one-byte family; the rest
//! of its layout depends on the family. The decoder always advances by the
//! declared length, so a packed sequence of records can be walked record
//! by record, skipping families it does not model.

use vstd::prelude::*;

use crate::bytes::{be128_at, be16_at, be16_bytes, be32_at, be32_bytes, le16_at, le32_at, zeros};
use crate::bytes::{put_be16, put_be32, put_zeros, read_be128, read_be16, read_be32, read_le32};
use crate::bytes::{lemma_be16_recompose, lemma_be32_recompose, read_le16};
use crate::consts::{AF_INET, AF_INET6, AF_LINK, SOCKADDR_IN_LEN};
use crate::strutil::{dec_chars, digit_char, digit_str, push_decimal};
use vstd::slice::{slice_subrange, slice_to_vec};
use vstd::string::StringExecFns;

verus! {

broadcast use vstd::slice::group_slice_axioms;

/// An IPv4 endpoint: address and port, both in host integer form
/// (the address `a.b.c.d` is the 32-bit value `a<<24 | b<<16 | c<<8 | d`).
#[derive(Debug, Clone, Copy, PartialEq, Eq, Structural)]
pub struct Inet4 {
    pub port: u16,
    pub addr: u32,
}

/// An IPv6 endpoint: the 128-bit address in host integer form (network
/// byte order folded most-significant-byte first), port, flow information
/// and scope id.
#[derive(Debug, Clone, Copy, PartialEq, Eq, Structural)]
pub struct Inet6 {
    pub port: u16,
    pub flowinfo: u32,
    pub addr: u128,
    pub scope_id: u32,
}

/// A raw IP address without a port, as kept for netmask, genmask and
/// broadcast slots.
#[derive(Debug, Clone, Copy, PartialEq, Eq, Structural)]
pub enum IpAddress {
    V4(u32),
    V6(u128),
}

/// A link-layer address record: the interface index, the interface name
/// and the link-layer address bytes, copied out of the record.
#[derive(Debug, Clone)]
pub struct DataLinkAddr {
    pub index: u16,
    pub link_layer_addr: Vec<u8>,
    pub interface_name: String,
}

/// Mathematical value of a `DataLinkAddr`.
pub ghost struct DataLinkAddrV {
    pub index: u16,
    pub link_layer_addr: Seq<u8>,
    pub interface_name: Seq<char>,
}

impl View for DataLinkAddr {
    type V = DataLinkAddrV;

    open spec fn view(&self) -> DataLinkAddrV {
        DataLinkAddrV {
            index: self.index,
            link_layer_addr: self.link_layer_addr@,
            interface_name: self.interface_name@,
        }
    }
}

/// The two uppercase hexadecimal characters of one byte.
pub open spec fn byte_hex(b: u8) -> Seq<char> {
    seq![digit_char(b as int / 16), digit_char(b as int % 16)]
}

/// The colon-joined hexadecimal spelling of a link-layer address.
pub open spec fn lladdr_chars(bytes: Seq<u8>) -> Seq<char>
    decreases bytes.len(),
{
    if bytes.len() == 0 {
        Seq::empty()
    } else if bytes.len() == 1 {
        byte_hex(bytes[0])
    } else {
        lladdr_chars(bytes.drop_last()) + seq![':'] + byte_hex(bytes.last())
    }
}

/// The text a link-layer address renders to for logging.
pub open spec fn data_link_text(la: DataLinkAddrV) -> Seq<char> {
    "\n        index: "@ + dec_chars(la.index as int) + "\n        link addr: "@ + lladdr_chars(
        la.link_layer_addr,
    ) + "\n        if name: "@ + la.interface_name + "\n        "@
}

impl DataLinkAddr {
    /// The colon-joined hexadecimal spelling of the link-layer address.
    fn format_addr(&self) -> (r: String)
        ensures
            r@ == lladdr_chars(self.link_layer_addr@),
    {
        let mut s = String::new();
        let n = self.link_layer_addr.len();
        let mut i: usize = 0;
        while i < n
            invariant
                i <= n,
                n == self.link_layer_addr@.len(),
                s@ == lladdr_chars(self.link_layer_addr@.subrange(0, i as int)),
            decreases n - i,
        {
            let b = self.link_layer_addr[i];
            if i > 0 {
                proof {
                    reveal_strlit(":");
                    assert(":"@ =~= seq![':']);
                }
                s.append(":");
            }
            s.append(digit_str(b / 16));
            s.append(digit_str(b % 16));
            i = i + 1;
            proof {
                let bytes = self.link_layer_addr@;
                let cur = bytes.subrange(0, i as int);
                assert(cur.drop_last() =~= bytes.subrange(0, i - 1));
                assert(cur.last() == b);
                assert(s@ =~= lladdr_chars(cur));
            }
        }
        proof {
            assert(self.link_layer_addr@.subrange(0, n as int) =~= self.link_layer_addr@);
        }
        s
    }

    /// Renders the record for logging: index, link-layer address and
    /// interface name.
    pub fn print_self(&self) -> (r: String)
        ensures
            r@ == data_link_text(self@),
    {
        let mut s = String::from_str("\n        index: ");
        push_decimal(&mut s, self.index);
        s.append("\n        link addr: ");
        let hex = self.format_addr();
        s.append(hex.as_str());
        s.append("\n        if name: ");
        s.append(self.interface_name.as_str());
        s.append("\n        ");
        proof {
            assert(s@ =~= data_link_text(self@));
        }
        s
    }
}

/// A decoded socket-address record of one of the modeled families.
#[derive(Debug, Clone)]
pub enum SockAddr {
    V4(Inet4),
    V6(Inet6),
    Link(DataLinkAddr),
}

/// Mathematical value of a `SockAddr`.
pub ghost enum SockAddrV {
    V4(Inet4),
    V6(Inet6),
    Link(DataLinkAddrV),
}

impl View for SockAddr {
    type V = SockAddrV;

    open spec fn view(&self) -> SockAddrV {
        match self {
            SockAddr::V4(a) => SockAddrV::V4(*a),
            SockAddr::V6(a) => SockAddrV::V6(*a),
            SockAddr::Link(l) => SockAddrV::Link(l@),
        }
    }
}

/// The raw IP carried by an IPv4 or IPv6 record (ports are dropped).
pub open spec fn ip_of(sa: SockAddrV) -> IpAddress
    recommends
        !(sa is Link),
{
    match sa {
        SockAddrV::V4(a) => IpAddress::V4(a.addr),
        SockAddrV::V6(a) => IpAddress::V6(a.addr),
        SockAddrV::Link(_) => IpAddress::V4(0),
    }
}

/// Failures of the address and message decoders.
#[derive(Debug, PartialEq, Eq, Structural, Clone, Copy)]
pub enum AddressParseError {
    /// A record carries a length field of zero where that is inconsistent.
    ZeroLen,
    /// A decoder was handed an empty slice.
    DataEmpty,
    /// A record or header needs more bytes than its slice holds.
    PartialData,
    /// A parser fixed to one family was handed another (expected, got).
    WrongFamily(i32, i32),
    /// A netmask appeared before any record that could fix its family.
    NetmaskWithoutKnownProto,
    /// A message header's length field disagrees with the bytes received.
    LengthMismatch,
}

/// What `String::from_utf8_lossy` yields on the given bytes. The result
/// depends on the bytes alone.
pub uninterp spec fn utf8_lossy(bytes: Seq<u8>) -> Seq<char>;

/// Relies on `String::from_utf8_lossy` (with `Cow::into_owned`): decodes
/// bytes as UTF-8, substituting replacement characters for invalid
/// sequences; the result is a function of the bytes alone.
#[verifier::external_body]
fn lossy_string(bytes: &[u8]) -> (r: String)
    ensures
        r@ == utf8_lossy(bytes@),
{
    String::from_utf8_lossy(bytes).into_owned()
}

/// Number of bytes the IPv4 decoder reads.
pub open spec fn v4_required() -> int {
    8
}

/// Number of bytes the IPv6 decoder reads.
pub open spec fn v6_required() -> int {
    28
}

/// Number of bytes the link-layer decoder reads: the fixed prefix plus
/// the name and address lengths it declares.
pub open spec fn link_required(data: Seq<u8>) -> int
    recommends
        data.len() >= 8,
{
    8 + data[5] + data[6]
}

/// Field layout of an IPv4 record: port and address in network order.
pub open spec fn v4_from_bytes(data: Seq<u8>) -> Inet4
    recommends
        data.len() >= v4_required(),
{
    Inet4 { port: be16_at(data, 2), addr: be32_at(data, 4) }
}

/// Field layout of an IPv6 record: port and address in network order,
/// flow information and scope id in host order.
pub open spec fn v6_from_bytes(data: Seq<u8>) -> Inet6
    recommends
        data.len() >= v6_required(),
{
    Inet6 {
        port: be16_at(data, 2),
        flowinfo: le32_at(data, 4),
        addr: be128_at(data, 8),
        scope_id: le32_at(data, 24),
    }
}

/// Field layout of a link-layer record: index in host order, then a
/// packed name (`data[5]` bytes) followed by the link-layer address
/// (`data[6]` bytes), both starting at offset 8.
pub open spec fn link_from_bytes(data: Seq<u8>) -> DataLinkAddrV
    recommends
        data.len() >= 8,
        data.len() >= link_required(data),
{
    DataLinkAddrV {
        index: le16_at(data, 2),
        link_layer_addr: data.subrange(8 + data[5], 8 + data[5] + data[6]),
        interface_name: utf8_lossy(data.subrange(8, 8 + data[5])),
    }
}

/// What decoding one record from the head of `data` yields: either a
/// decoded (or skipped) record together with the byte count to advance
/// by — always the record's declared length — or a failure.
pub open spec fn parse_record_v(data: Seq<u8>) -> Result<
    (Option<SockAddrV>, nat),
    AddressParseError,
> {
    if data.len() == 0 {
        Err(AddressParseError::DataEmpty)
    } else if data[0] == 0 {
        // A zero-length record ends the packed sequence.
        Ok((None, 0))
    } else if data[0] > data.len() {
        Err(AddressParseError::PartialData)
    } else if data.len() < 2 {
        Err(AddressParseError::PartialData)
    } else if data[1] == AF_INET {
        if data.len() < v4_required() {
            Err(AddressParseError::PartialData)
        } else {
            Ok((Some(SockAddrV::V4(v4_from_bytes(data))), data[0] as nat))
        }
    } else if data[1] == AF_INET6 {
        if data.len() < v6_required() {
            Err(AddressParseError::PartialData)
        } else {
            Ok((Some(SockAddrV::V6(v6_from_bytes(data))), data[0] as nat))
        }
    } else if data[1] == AF_LINK {
        if data.len() < 8 || data.len() < link_required(data) {
            Err(AddressParseError::PartialData)
        } else {
            Ok((Some(SockAddrV::Link(link_from_bytes(data))), data[0] as nat))
        }
    } else {
        // An unmodeled family is skipped by its declared length.
        Ok((None, data[0] as nat))
    }
}

/// What the family-fixed IP parser yields on the head of `data`: an IPv4
/// or IPv6 record and its declared length, or a failure — in particular
/// `WrongFamily` whenever the family byte is neither IPv4 nor IPv6.
pub open spec fn parse_ip_v(data: Seq<u8>) -> Result<(SockAddrV, nat), AddressParseError> {
    if data.len() == 0 {
        Err(AddressParseError::DataEmpty)
    } else if data.len() < 2 {
        Err(AddressParseError::PartialData)
    } else if data[1] == AF_INET {
        if data.len() < v4_required() {
            Err(AddressParseError::PartialData)
        } else {
            Ok((SockAddrV::V4(v4_from_bytes(data)), data[0] as nat))
        }
    } else if data[1] == AF_INET6 {
        if data.len() < v6_required() {
            Err(AddressParseError::PartialData)
        } else {
            Ok((SockAddrV::V6(v6_from_bytes(data)), data[0] as nat))
        }
    } else {
        Err(AddressParseError::WrongFamily(AF_INET as i32, data[1] as i32))
    }
}

/// What the link-fixed parser yields on the head of `data`.
pub open spec fn parse_link_v(data: Seq<u8>) -> Result<(DataLinkAddrV, nat), AddressParseError> {
    if data.len() == 0 {
        Err(AddressParseError::DataEmpty)
    } else if data.len() < 2 {
        Err(AddressParseError::PartialData)
    } else if data[1] != AF_LINK {
        Err(AddressParseError::WrongFamily(AF_LINK as i32, data[1] as i32))
    } else if data.len() < 8 || data.len() < link_required(data) {
        Err(AddressParseError::PartialData)
    } else {
        Ok((link_from_bytes(data), data[0] as nat))
    }
}

/// Lifts an executable record-parse result to its mathematical value.
pub open spec fn lift_record(r: Result<(Option<SockAddr>, usize), AddressParseError>) -> Result<
    (Option<SockAddrV>, nat),
    AddressParseError,
> {
    match r {
        Ok((None, n)) => Ok((None, n as nat)),
        Ok((Some(sa), n)) => Ok((Some(sa@), n as nat)),
        Err(e) => Err(e),
    }
}

/// Lifts an executable IP-parse result to its mathematical value.
pub open spec fn lift_ip(r: Result<(SockAddr, usize), AddressParseError>) -> Result<
    (SockAddrV, nat),
    AddressParseError,
> {
    match r {
        Ok((sa, n)) => Ok((sa@, n as nat)),
        Err(e) => Err(e),
    }
}

/// Lifts an executable link-parse result to its mathematical value.
pub open spec fn lift_link(r: Result<(DataLinkAddr, usize), AddressParseError>) -> Result<
    (DataLinkAddrV, nat),
    AddressParseError,
> {
    match r {
        Ok((la, n)) => Ok((la@, n as nat)),
        Err(e) => Err(e),
    }
}

/// Decodes the link-layer fields of a record already known to be long
/// enough.
fn decode_link_fields(data: &[u8]) -> (r: DataLinkAddr)
    requires
        data@.len() >= 8,
        data@.len() >= link_required(data@),
    ensures
        r@ == link_from_bytes(data@),
{
    let nlen = data[5] as usize;
    let alen = data[6] as usize;
    let index = read_le16(data, 2);
    let name_bytes = slice_subrange(data, 8, 8 + nlen);
    let interface_name = lossy_string(name_bytes);
    let link_layer_addr = slice_to_vec(slice_subrange(data, 8 + nlen, 8 + nlen + alen));
    DataLinkAddr { index, link_layer_addr, interface_name }
}

impl SockAddr {
    /// Decodes one record from the head of `data`: a modeled family gives
    /// a `SockAddr`, an unmodeled one `None`; the returned count — the
    /// record's declared length — is how far the caller must advance.
    pub fn from_raw(data: &[u8]) -> (r: Result<(Option<SockAddr>, usize), AddressParseError>)
        ensures
            lift_record(r) == parse_record_v(data@),
    {
        proof {
            vstd::slice::axiom_spec_len::<u8>(data);
        }
        if data.len() == 0 {
            return Err(AddressParseError::DataEmpty);
        }
        let l = data[0] as usize;
        if l == 0 {
            return Ok((None, 0));
        }
        if l > data.len() {
            return Err(AddressParseError::PartialData);
        }
        if data.len() < 2 {
            return Err(AddressParseError::PartialData);
        }
        let family = data[1];
        if family == AF_INET {
            if data.len() < 8 {
                return Err(AddressParseError::PartialData);
            }
            let port = read_be16(data, 2);
            let addr = read_be32(data, 4);
            Ok((Some(SockAddr::V4(Inet4 { port, addr })), l))
        } else if family == AF_INET6 {
            if data.len() < 28 {
                return Err(AddressParseError::PartialData);
            }
            let port = read_be16(data, 2);
            let flowinfo = read_le32(data, 4);
            let addr = read_be128(data, 8);
            let scope_id = read_le32(data, 24);
            Ok((Some(SockAddr::V6(Inet6 { port, flowinfo, addr, scope_id })), l))
        } else if family == AF_LINK {
            if data.len() < 8 {
                return Err(AddressParseError::PartialData);
            }
            let nlen = data[5] as usize;
            let alen = data[6] as usize;
            if data.len() < 8 + nlen + alen {
                return Err(AddressParseError::PartialData);
            }
            Ok((Some(SockAddr::Link(decode_link_fields(data))), l))
        } else {
            Ok((None, l))
        }
    }
}

/// Decodes one record from the head of `data`; see `SockAddr::from_raw`,
/// whose behaviour this shares.
pub fn parse_address(data: &[u8]) -> (r: Result<(Option<SockAddr>, usize), AddressParseError>)
    ensures
        lift_record(r) == parse_record_v(data@),
{
    SockAddr::from_raw(data)
}

/// Decodes one record that must be an IPv4 or IPv6 address; any other
/// family is rejected with `WrongFamily`.
pub fn parse_ip(data: &[u8]) -> (r: Result<(SockAddr, usize), AddressParseError>)
    ensures
        lift_ip(r) == parse_ip_v(data@),
{
    proof {
        vstd::slice::axiom_spec_len::<u8>(data);
    }
    if data.len() == 0 {
        return Err(AddressParseError::DataEmpty);
    }
    if data.len() < 2 {
        return Err(AddressParseError::PartialData);
    }
    let l = data[0] as usize;
    let family = data[1];
    if family == AF_INET {
        if data.len() < 8 {
            return Err(AddressParseError::PartialData);
        }
        let port = read_be16(data, 2);
        let addr = read_be32(data, 4);
        Ok((SockAddr::V4(Inet4 { port, addr }), l))
    } else if family == AF_INET6 {
        if data.len() < 28 {
            return Err(AddressParseError::PartialData);
        }
        let port = read_be16(data, 2);
        let flowinfo = read_le32(data, 4);
        let addr = read_be128(data, 8);
        let scope_id = read_le32(data, 24);
        Ok((SockAddr::V6(Inet6 { port, flowinfo, addr, scope_id }), l))
    } else {
        Err(AddressParseError::WrongFamily(AF_INET as i32, family as i32))
    }
}

/// Decodes one record that must be a link-layer address; any other family
/// is rejected with `WrongFamily`.
pub fn parse_link(data: &[u8]) -> (r: Result<(DataLinkAddr, usize), AddressParseError>)
    ensures
        lift_link(r) == parse_link_v(data@),
{
    proof {
        vstd::slice::axiom_spec_len::<u8>(data);
    }
    if data.len() == 0 {
        return Err(AddressParseError::DataEmpty);
    }
    if data.len() < 2 {
        return Err(AddressParseError::PartialData);
    }
    let l = data[0] as usize;
    let family = data[1];
    if family != AF_LINK {
        return Err(AddressParseError::WrongFamily(AF_LINK as i32, family as i32));
    }
    if data.len() < 8 {
        return Err(AddressParseError::PartialData);
    }
    let nlen = data[5] as usize;
    let alen = data[6] as usize;
    if data.len() < 8 + nlen + alen {
        return Err(AddressParseError::PartialData);
    }
    Ok((decode_link_fields(data), l))
}

/// The bytes of an IPv4 socket-address record carrying the given port
/// and address: declared length, family, port and address in network
/// order, then zero padding.
pub open spec fn sockaddr_v4_bytes(port: u16, addr: u32) -> Seq<u8> {
    seq![SOCKADDR_IN_LEN as u8, AF_INET] + be16_bytes(port) + be32_bytes(addr) + zeros(8)
}

/// Encodes an IPv4 socket-address record.
pub fn encode_sockaddr_v4(port: u16, addr: u32) -> (r: Vec<u8>)
    ensures
        r@ == sockaddr_v4_bytes(port, addr),
{
    let mut v: Vec<u8> = Vec::new();
    v.push(SOCKADDR_IN_LEN as u8);
    v.push(AF_INET);
    put_be16(&mut v, port);
    put_be32(&mut v, addr);
    put_zeros(&mut v, 8);
    proof {
        assert(v@ =~= sockaddr_v4_bytes(port, addr));
    }
    v
}

/// Whatever record a successful decode returns, it advances by exactly
/// the record's declared length field.
pub proof fn lemma_consumed_matches_declared_length(data: Seq<u8>)
    ensures
        parse_record_v(data) matches Ok((_, n)) ==> n == data[0],
        parse_ip_v(data) matches Ok((_, n)) ==> n == data[0],
        parse_link_v(data) matches Ok((_, n)) ==> n == data[0],
{
}

/// A record of an unmodeled family decodes to a skip that advances by
/// exactly its declared length, leaving later records unharmed.
pub proof fn lemma_unknown_family_skipped(data: Seq<u8>)
    requires
        data.len() >= 2,
        data[0] != 0,
        data[0] <= data.len(),
        data[1] != AF_INET,
        data[1] != AF_INET6,
        data[1] != AF_LINK,
    ensures
        parse_record_v(data) == Ok::<_, AddressParseError>((None::<SockAddrV>, data[0] as nat)),
{
}

/// Encoding an IPv4 address and port and decoding the record back yields
/// the original address and port.
pub proof fn lemma_sockaddr_v4_round_trip(port: u16, addr: u32)
    ensures
        parse_record_v(sockaddr_v4_bytes(port, addr)) == Ok::<_, AddressParseError>(
            (Some(SockAddrV::V4(Inet4 { port, addr })), SOCKADDR_IN_LEN as nat),
        ),
        parse_ip_v(sockaddr_v4_bytes(port, addr)) == Ok::<_, AddressParseError>(
            (SockAddrV::V4(Inet4 { port, addr }), SOCKADDR_IN_LEN as nat),
        ),
{
    let data = sockaddr_v4_bytes(port, addr);
    assert(data.len() == 16);
    assert(data[0] == 16);
    assert(data[1] == AF_INET);
    lemma_be16_recompose(data[2], data[3], port);
    lemma_be32_recompose(data[4], data[5], data[6], data[7], addr);
    assert(be16_at(data, 2) == port);
    assert(be32_at(data, 4) == addr);
}

} // verus!
