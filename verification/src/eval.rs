//! The wait-condition evaluator: which events satisfy each wait
//! condition, how a name-scoped condition adopts an interface index,
//! which request opens the wait, and how outcomes map to exit codes.

use vstd::prelude::*;

use crate::consts::{IFF_RUNNING, IFF_UP, RTF_DEAD, RTF_UP};
use crate::addresses::AddressOperation;
use crate::header::{addrs_v, index_v, Header, HeaderV};
use crate::link;
use crate::localnet::{
    ipv4_network_contains, ipv6_network_contains, is_local_v4, is_local_v6,
    lemma_v4_ranges_bitwise, lemma_v6_range_bitwise, LINK_LOCAL_IPV4_NET, LINK_LOCAL_IPV6_NET,
    LOCAL_IPV4_NET, LOCAL_IPV6_ADDR,
};
use crate::route;
use crate::sockaddr::{SockAddr, SockAddrV};
use crate::socket::{
    default_ipv4_request, default_ipv4_request_bytes, interface_info_req, interface_info_req_bytes,
    ReadError,
};
use crate::strutil::str_eq;

verus! {

/// How the waited-on interface is identified: by its kernel index, or
/// by name until an event reveals the index.
#[derive(Debug, Clone)]
pub enum InterfaceSpec {
    Index(u16),
    Name(String),
}

/// Mathematical value of an `InterfaceSpec`.
pub ghost enum InterfaceSpecV {
    Index(u16),
    Name(Seq<char>),
}

impl View for InterfaceSpec {
    type V = InterfaceSpecV;

    open spec fn view(&self) -> InterfaceSpecV {
        match self {
            InterfaceSpec::Index(i) => InterfaceSpecV::Index(*i),
            InterfaceSpec::Name(n) => InterfaceSpecV::Name(n@),
        }
    }
}

/// What the waited-on interface must gain: a usable address, or a
/// non-local route.
#[derive(Debug, Clone, Copy, PartialEq, Eq, Structural)]
pub enum InterfaceCondition {
    HasAddress,
    HasRoute,
}

/// The condition the event loop waits for.
#[derive(Debug, Clone)]
pub enum WaitCondition {
    AnyDefaultRoute,
    Interface(InterfaceCondition, InterfaceSpec),
}

/// Mathematical value of a `WaitCondition`.
pub ghost enum WaitConditionV {
    AnyDefaultRoute,
    Interface(InterfaceCondition, InterfaceSpecV),
}

impl View for WaitCondition {
    type V = WaitConditionV;

    open spec fn view(&self) -> WaitConditionV {
        match self {
            WaitCondition::AnyDefaultRoute => WaitConditionV::AnyDefaultRoute,
            WaitCondition::Interface(c, s) => WaitConditionV::Interface(*c, s@),
        }
    }
}

/// An address that means real connectivity: an IPv4 or IPv6 address
/// outside the local and link-local ranges. A link-layer record never
/// counts.
pub open spec fn not_local_v(sa: SockAddrV) -> bool {
    match sa {
        SockAddrV::V4(a) => !is_local_v4(a.addr),
        SockAddrV::V6(a) => !is_local_v6(a.addr),
        SockAddrV::Link(_) => false,
    }
}

/// Whether the given address is a real, non-local one.
pub fn is_not_local_addr(addr: &SockAddr) -> (r: bool)
    ensures
        r == not_local_v(addr@),
{
    match addr {
        SockAddr::V4(a) => {
            proof {
                lemma_v4_ranges_bitwise(a.addr);
            }
            !(ipv4_network_contains(LOCAL_IPV4_NET, 8, a.addr) || ipv4_network_contains(
                LINK_LOCAL_IPV4_NET,
                16,
                a.addr,
            ))
        },
        SockAddr::V6(a) => {
            proof {
                lemma_v6_range_bitwise(a.addr);
            }
            !(a.addr == LOCAL_IPV6_ADDR || ipv6_network_contains(LINK_LOCAL_IPV6_NET, 10, a.addr))
        },
        SockAddr::Link(_) => false,
    }
}

/// An event that announces a usable default route: a route event whose
/// operation is add, get or change, whose flags say the route is up,
/// that carries a gateway, and whose destination is the all-zeros IPv4
/// or IPv6 address.
pub open spec fn ready_default_route_v(h: HeaderV) -> bool {
    &&& h matches HeaderV::Route(info)
    &&& (info.operation == route::MessageType::Add || info.operation == route::MessageType::Get
        || info.operation == route::MessageType::Change)
    &&& info.flags.0 & RTF_UP != 0
    &&& info.addrs.gateway is Some
    &&& (match info.addrs.destination {
        Some(SockAddrV::V4(a)) => a.addr == 0,
        Some(SockAddrV::V6(a)) => a.addr == 0,
        _ => false,
    })
}

/// Whether the event announces a usable default route.
pub fn is_ready_default_route(h: &Header) -> (r: bool)
    ensures
        r == ready_default_route_v(h@),
{
    let info = match h {
        Header::Route(i) => i,
        _ => {
            return false;
        },
    };
    match info.operation {
        route::MessageType::Add => (),
        route::MessageType::Get => (),
        route::MessageType::Change => (),
        _ => {
            return false;
        },
    }
    if !info.flags.is_up() {
        return false;
    }
    match &info.addrs.gateway {
        Some(_) => (),
        None => {
            return false;
        },
    }
    match &info.addrs.destination {
        Some(SockAddr::V4(a)) => a.addr == 0,
        Some(SockAddr::V6(a)) => a.addr == 0,
        _ => false,
    }
}

/// The index that a link record with the given interface name reveals,
/// if the event carries one.
pub open spec fn index_for_name_v(h: HeaderV, name: Seq<char>) -> Option<u16> {
    match addrs_v(h).interface_link {
        Some(la) => if la.interface_name == name {
            Some(la.index)
        } else {
            None
        },
        None => None,
    }
}

/// The interface index revealed by a link record whose name matches.
pub fn index_for_name(h: &Header, if_name: &str) -> (r: Option<u16>)
    ensures
        r == index_for_name_v(h@, if_name@),
{
    match &h.addrs().interface_link {
        Some(la) => if str_eq(la.interface_name.as_str(), if_name) {
            Some(la.index)
        } else {
            None
        },
        None => None,
    }
}

/// An event that shows its interface alive: a link-info event with the
/// up and running flags, an address-add event whose route is up and not
/// dead, or a route add/get event for a non-local destination whose
/// route is up.
pub open spec fn interface_event_alive_v(h: HeaderV) -> bool {
    match h {
        HeaderV::Link(l) => l.operation == link::MessageType::Info && (l.flags.0 & IFF_UP != 0) && (
        l.flags.0 & IFF_RUNNING != 0),
        HeaderV::Address(a) => a.operation == AddressOperation::Add && (a.flags.0 & RTF_UP != 0)
            && (a.flags.0 & RTF_DEAD == 0),
        HeaderV::Route(r) => {
            &&& (r.operation == route::MessageType::Add || r.operation == route::MessageType::Get)
            &&& (r.addrs.destination matches Some(dest) && not_local_v(dest))
            &&& r.flags.0 & RTF_UP != 0
        },
    }
}

/// An event that satisfies the interface condition for the interface
/// with the given index: the event must carry that index in its
/// top-level header, show the interface alive, and carry the address
/// the condition asks for — a non-local interface address, or a
/// non-local destination.
pub open spec fn given_interface_running_v(
    h: HeaderV,
    condition: InterfaceCondition,
    index: u16,
) -> bool {
    &&& index_v(h) == index
    &&& interface_event_alive_v(h)
    &&& (match condition {
        InterfaceCondition::HasRoute => addrs_v(h).destination matches Some(d) && not_local_v(d),
        InterfaceCondition::HasAddress => addrs_v(h).interface_addr matches Some(a) && not_local_v(
            a,
        ),
    })
}

/// Whether the event satisfies the interface condition for the
/// interface with the given index.
pub fn is_given_interface_running(h: &Header, condition: &InterfaceCondition, index: &u16) -> (r:
    bool)
    ensures
        r == given_interface_running_v(h@, *condition, *index),
{
    let idx = h.index();
    if *index != idx {
        return false;
    }
    let is_alive: bool = match h {
        Header::Link(l) => match l.operation {
            link::MessageType::Info => l.flags.is_up() && l.flags.is_running(),
            _ => {
                return false;
            },
        },
        Header::Address(a) => match a.operation {
            AddressOperation::Add => a.flags.is_up() && !a.flags.is_dead(),
            _ => {
                return false;
            },
        },
        Header::Route(r) => match r.operation {
            route::MessageType::Add | route::MessageType::Get => match &r.addrs.destination {
                Some(dest) => if is_not_local_addr(dest) {
                    r.flags.is_up()
                } else {
                    return false;
                },
                None => false,
            },
            _ => {
                return false;
            },
        },
    };
    if !is_alive {
        return false;
    }
    let addrs = h.addrs();
    match condition {
        InterfaceCondition::HasRoute => match &addrs.destination {
            Some(dest) => is_not_local_addr(dest),
            _ => false,
        },
        InterfaceCondition::HasAddress => match &addrs.interface_addr {
            Some(addr) => is_not_local_addr(addr),
            _ => false,
        },
    }
}

/// How a wait condition changes on seeing an event: a name-scoped
/// interface condition latches the index revealed by a matching link
/// record; everything else stays as it is.
pub open spec fn latched_v(c: WaitConditionV, h: HeaderV) -> WaitConditionV {
    match c {
        WaitConditionV::Interface(cond, InterfaceSpecV::Name(name)) => match index_for_name_v(
            h,
            name,
        ) {
            Some(idx) => WaitConditionV::Interface(cond, InterfaceSpecV::Index(idx)),
            None => c,
        },
        _ => c,
    }
}

/// Whether a wait condition is satisfied by an event: the default-route
/// predicate, or the interface predicate for an index-scoped condition.
/// A condition still scoped by name is never satisfied.
pub open spec fn satisfied_v(c: WaitConditionV, h: HeaderV) -> bool {
    match c {
        WaitConditionV::AnyDefaultRoute => ready_default_route_v(h),
        WaitConditionV::Interface(cond, InterfaceSpecV::Index(idx)) => given_interface_running_v(
            h,
            cond,
            idx,
        ),
        WaitConditionV::Interface(_, InterfaceSpecV::Name(_)) => false,
    }
}

/// Evaluates one received event: first the condition adopts the
/// interface index if a matching link record reveals it, then the event
/// is held against the (possibly latched) condition. Each event is
/// evaluated exactly once.
pub fn evaluate(cond: &mut WaitCondition, packet: &Header) -> (done: bool)
    ensures
        final(cond)@ == latched_v(old(cond)@, packet@),
        done == satisfied_v(final(cond)@, packet@),
{
    let replacement: Option<WaitCondition> = match &*cond {
        WaitCondition::Interface(c, InterfaceSpec::Name(name)) => match index_for_name(
            packet,
            name.as_str(),
        ) {
            Some(idx) => Some(WaitCondition::Interface(*c, InterfaceSpec::Index(idx))),
            None => None,
        },
        _ => None,
    };
    if let Some(nc) = replacement {
        *cond = nc;
    }
    match &*cond {
        WaitCondition::AnyDefaultRoute => is_ready_default_route(packet),
        WaitCondition::Interface(c, InterfaceSpec::Index(idx)) => is_given_interface_running(
            packet,
            c,
            idx,
        ),
        WaitCondition::Interface(_, InterfaceSpec::Name(_)) => false,
    }
}

/// Chooses how an interface is identified: by the index the platform
/// lookup found, or — when the lookup failed — by its name, tracked
/// until an event reveals the index.
pub fn to_ifspec(if_name: &str, looked_up: Option<u32>) -> (r: InterfaceSpec)
    requires
        looked_up is None ==> if_name@.len() > 0,
    ensures
        (match looked_up {
            Some(v) => r == InterfaceSpec::Index(v as u16),
            None => r matches InterfaceSpec::Name(n) && n@ == if_name@,
        }),
{
    match looked_up {
        Some(v) => InterfaceSpec::Index(v as u16),
        None => InterfaceSpec::Name(if_name.to_owned()),
    }
}

/// The request that opens the wait: the default-route query for the
/// default-route condition, the interface-info query for an
/// index-scoped interface condition, and none for a name-scoped one.
pub fn initial_request(cond: &WaitCondition, seq: i32) -> (r: Option<Vec<u8>>)
    ensures
        (match cond@ {
            WaitConditionV::AnyDefaultRoute => r matches Some(v) && v@ == default_ipv4_request_bytes(
                seq,
            ),
            WaitConditionV::Interface(_, InterfaceSpecV::Index(idx)) => r matches Some(v) && v@
                == interface_info_req_bytes(idx, seq),
            WaitConditionV::Interface(_, InterfaceSpecV::Name(_)) => r is None,
        }),
{
    match cond {
        WaitCondition::AnyDefaultRoute => Some(default_ipv4_request(seq)),
        WaitCondition::Interface(_, InterfaceSpec::Index(idx)) => Some(
            interface_info_req(*idx, seq),
        ),
        WaitCondition::Interface(_, InterfaceSpec::Name(_)) => None,
    }
}

/// The process exit code for each outcome: success 0, I/O failure 1,
/// timeout 2, decode failure 3.
pub fn exit_code(result: &Result<(), ReadError>) -> (r: i32)
    ensures
        result is Ok ==> r == 0,
        (result matches Err(e) && e matches ReadError::IO(_)) ==> r == 1,
        (result matches Err(e) && e is Timeout) ==> r == 2,
        (result matches Err(e) && e matches ReadError::ParsingAddress(_)) ==> r == 3,
{
    match result {
        Ok(_) => 0,
        Err(ReadError::IO(_)) => 1,
        Err(ReadError::Timeout) => 2,
        Err(ReadError::ParsingAddress(_)) => 3,
    }
}

} // verus!
