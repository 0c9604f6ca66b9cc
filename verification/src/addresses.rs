//! The address set that follows a message header: a packed sequence of
//! optional socket-address records, one per bit set in the header's
//! "addresses present" mask, in the fixed canonical order
//! {destination, gateway, netmask, genmask, interface-link,
//! interface-address, author, broadcast}.

use vstd::prelude::*;

use crate::bytes::{be128_at, be32_at, le16_at, le32i_at};
use crate::bytes::{read_be128, read_be32, read_le16, read_le32i};
use crate::consts::{
    RTA_AUTHOR, RTA_BRD, RTA_DST, RTA_GATEWAY, RTA_GENMASK, RTA_IFA, RTA_IFP, RTA_NETMASK,
};
use crate::consts::{
    IFA_MSGHDR_LEN, RTF_BLACKHOLE, RTF_BROADCAST, RTF_CLONING, RTF_CONDEMNED, RTF_DEAD,
    RTF_DELCLONE, RTF_DONE, RTF_DYNAMIC, RTF_GATEWAY, RTF_HOST, RTF_IFREF, RTF_IFSCOPE, RTF_LLINFO,
    RTF_LOCAL, RTF_MODIFIED, RTF_MULTICAST, RTF_NOIFREF, RTF_PRCLONING, RTF_PROTO1, RTF_PROTO2,
    RTF_PROTO3, RTF_PROXY, RTF_REJECT, RTF_ROUTER, RTF_STATIC, RTF_UP, RTF_WASCLONED, RTF_XRESOLVE,
    RTM_DELADDR, RTM_NEWADDR,
};
use crate::sockaddr::{
    ip_of, parse_ip_v, parse_link_v, parse_record_v, AddressParseError, DataLinkAddr,
    DataLinkAddrV, IpAddress, SockAddr, SockAddrV,
};
use crate::sockaddr::{
    lemma_consumed_matches_declared_length, parse_address, parse_ip, parse_link,
};
use crate::strutil::{bool_chars, bool_str};
use vstd::slice::slice_subrange;
use vstd::string::StringExecFns;

verus! {

broadcast use vstd::slice::group_slice_axioms;

/// The "addresses present" mask of a message header, one bit per
/// socket-address slot.
pub struct AddressFlags(pub i32);

impl AddressFlags {
    pub fn new(flags: i32) -> (r: Self)
        ensures
            r.0 == flags,
    {
        Self(flags)
    }

    pub fn has_destination(&self) -> (r: bool)
        ensures
            r == (self.0 & RTA_DST != 0),
    {
        self.0 & RTA_DST != 0
    }

    pub fn has_gateway(&self) -> (r: bool)
        ensures
            r == (self.0 & RTA_GATEWAY != 0),
    {
        self.0 & RTA_GATEWAY != 0
    }

    pub fn has_netmask(&self) -> (r: bool)
        ensures
            r == (self.0 & RTA_NETMASK != 0),
    {
        self.0 & RTA_NETMASK != 0
    }

    pub fn has_genmask(&self) -> (r: bool)
        ensures
            r == (self.0 & RTA_GENMASK != 0),
    {
        self.0 & RTA_GENMASK != 0
    }

    pub fn has_interface_address(&self) -> (r: bool)
        ensures
            r == (self.0 & RTA_IFA != 0),
    {
        self.0 & RTA_IFA != 0
    }

    pub fn has_interface_link(&self) -> (r: bool)
        ensures
            r == (self.0 & RTA_IFP != 0),
    {
        self.0 & RTA_IFP != 0
    }

    pub fn has_author(&self) -> (r: bool)
        ensures
            r == (self.0 & RTA_AUTHOR != 0),
    {
        self.0 & RTA_AUTHOR != 0
    }

    pub fn has_brd(&self) -> (r: bool)
        ensures
            r == (self.0 & RTA_BRD != 0),
    {
        self.0 & RTA_BRD != 0
    }
}

/// The text an address mask renders to for logging: one line per slot.
pub open spec fn address_flags_text(flags: i32) -> Seq<char> {
    "\n        has dest: "@ + bool_chars(flags & RTA_DST != 0) + ",\n        has gateway: "@
        + bool_chars(flags & RTA_GATEWAY != 0) + ",\n        has netmask: "@ + bool_chars(
        flags & RTA_NETMASK != 0,
    ) + ",\n        has genmask: "@ + bool_chars(flags & RTA_GENMASK != 0)
        + ",\n        has ifa: "@ + bool_chars(flags & RTA_IFA != 0) + ",\n        has ifp: "@
        + bool_chars(flags & RTA_IFP != 0) + ",\n        has author: "@ + bool_chars(
        flags & RTA_AUTHOR != 0,
    ) + ",\n        has broadcast: "@ + bool_chars(flags & RTA_BRD != 0) + "\n"@
}

impl AddressFlags {
    /// Renders which address slots the mask announces, for logging.
    pub fn print_self(&self) -> (r: String)
        ensures
            r@ == address_flags_text(self.0),
    {
        let mut s = String::from_str("\n        has dest: ");
        s.append(bool_str(self.has_destination()));
        s.append(",\n        has gateway: ");
        s.append(bool_str(self.has_gateway()));
        s.append(",\n        has netmask: ");
        s.append(bool_str(self.has_netmask()));
        s.append(",\n        has genmask: ");
        s.append(bool_str(self.has_genmask()));
        s.append(",\n        has ifa: ");
        s.append(bool_str(self.has_interface_address()));
        s.append(",\n        has ifp: ");
        s.append(bool_str(self.has_interface_link()));
        s.append(",\n        has author: ");
        s.append(bool_str(self.has_author()));
        s.append(",\n        has broadcast: ");
        s.append(bool_str(self.has_brd()));
        s.append("\n");
        proof {
            assert(s@ =~= address_flags_text(self.0));
        }
        s
    }
}

/// Whether an address message reports the address being added or removed.
#[derive(Debug, Clone, Copy, PartialEq, Eq, Structural)]
pub enum AddressOperation {
    Add,
    Delete,
}

/// The route flag word carried by an interface-address message.
#[derive(Debug, Clone, Copy)]
pub struct AddressInfoFlags(pub i32);

impl AddressInfoFlags {
    pub fn new(val: i32) -> (r: Self)
        ensures
            r.0 == val,
    {
        Self(val)
    }

    /// Route usable.
    pub fn is_up(&self) -> (r: bool)
        ensures
            r == (self.0 & RTF_UP != 0),
    {
        self.0 & RTF_UP != 0
    }

    /// Destination is a gateway.
    pub fn is_gateway(&self) -> (r: bool)
        ensures
            r == (self.0 & RTF_GATEWAY != 0),
    {
        self.0 & RTF_GATEWAY != 0
    }

    /// Host entry (net otherwise).
    pub fn is_host(&self) -> (r: bool)
        ensures
            r == (self.0 & RTF_HOST != 0),
    {
        self.0 & RTF_HOST != 0
    }

    /// Host or net unreachable.
    pub fn is_reject(&self) -> (r: bool)
        ensures
            r == (self.0 & RTF_REJECT != 0),
    {
        self.0 & RTF_REJECT != 0
    }

    /// Created dynamically (by redirect).
    pub fn is_dynamic(&self) -> (r: bool)
        ensures
            r == (self.0 & RTF_DYNAMIC != 0),
    {
        self.0 & RTF_DYNAMIC != 0
    }

    /// Modified dynamically (by redirect).
    pub fn is_modified(&self) -> (r: bool)
        ensures
            r == (self.0 & RTF_MODIFIED != 0),
    {
        self.0 & RTF_MODIFIED != 0
    }

    /// Message confirmed.
    pub fn is_done(&self) -> (r: bool)
        ensures
            r == (self.0 & RTF_DONE != 0),
    {
        self.0 & RTF_DONE != 0
    }

    /// Delete cloned route.
    pub fn is_delclone(&self) -> (r: bool)
        ensures
            r == (self.0 & RTF_DELCLONE != 0),
    {
        self.0 & RTF_DELCLONE != 0
    }

    /// Generate new routes on use.
    pub fn is_cloning(&self) -> (r: bool)
        ensures
            r == (self.0 & RTF_CLONING != 0),
    {
        self.0 & RTF_CLONING != 0
    }

    /// External daemon resolves name.
    pub fn is_xresolve(&self) -> (r: bool)
        ensures
            r == (self.0 & RTF_XRESOLVE != 0),
    {
        self.0 & RTF_XRESOLVE != 0
    }

    /// Generated by link layer.
    pub fn is_llinfo(&self) -> (r: bool)
        ensures
            r == (self.0 & RTF_LLINFO != 0),
    {
        self.0 & RTF_LLINFO != 0
    }

    /// Manually added.
    pub fn is_static(&self) -> (r: bool)
        ensures
            r == (self.0 & RTF_STATIC != 0),
    {
        self.0 & RTF_STATIC != 0
    }

    /// Just discard packets (during updates).
    pub fn is_blackhole(&self) -> (r: bool)
        ensures
            r == (self.0 & RTF_BLACKHOLE != 0),
    {
        self.0 & RTF_BLACKHOLE != 0
    }

    /// Not eligible for an interface reference.
    pub fn is_noifref(&self) -> (r: bool)
        ensures
            r == (self.0 & RTF_NOIFREF != 0),
    {
        self.0 & RTF_NOIFREF != 0
    }

    /// Protocol-specific routing flag.
    pub fn is_proto2(&self) -> (r: bool)
        ensures
            r == (self.0 & RTF_PROTO2 != 0),
    {
        self.0 & RTF_PROTO2 != 0
    }

    /// Protocol-specific routing flag.
    pub fn is_proto1(&self) -> (r: bool)
        ensures
            r == (self.0 & RTF_PROTO1 != 0),
    {
        self.0 & RTF_PROTO1 != 0
    }

    /// Protocol requires cloning.
    pub fn is_prcloning(&self) -> (r: bool)
        ensures
            r == (self.0 & RTF_PRCLONING != 0),
    {
        self.0 & RTF_PRCLONING != 0
    }

    /// Route generated through cloning.
    pub fn is_wascloned(&self) -> (r: bool)
        ensures
            r == (self.0 & RTF_WASCLONED != 0),
    {
        self.0 & RTF_WASCLONED != 0
    }

    /// Protocol-specific routing flag.
    pub fn is_proto3(&self) -> (r: bool)
        ensures
            r == (self.0 & RTF_PROTO3 != 0),
    {
        self.0 & RTF_PROTO3 != 0
    }

    /// Route represents a local address.
    pub fn is_local(&self) -> (r: bool)
        ensures
            r == (self.0 & RTF_LOCAL != 0),
    {
        self.0 & RTF_LOCAL != 0
    }

    /// Route represents a broadcast address.
    pub fn is_broadcast(&self) -> (r: bool)
        ensures
            r == (self.0 & RTF_BROADCAST != 0),
    {
        self.0 & RTF_BROADCAST != 0
    }

    /// Route represents a multicast address.
    pub fn is_multicast(&self) -> (r: bool)
        ensures
            r == (self.0 & RTF_MULTICAST != 0),
    {
        self.0 & RTF_MULTICAST != 0
    }

    /// Has a valid interface scope.
    pub fn is_ifscope(&self) -> (r: bool)
        ensures
            r == (self.0 & RTF_IFSCOPE != 0),
    {
        self.0 & RTF_IFSCOPE != 0
    }

    /// Defunct; no longer modifiable.
    pub fn is_condemned(&self) -> (r: bool)
        ensures
            r == (self.0 & RTF_CONDEMNED != 0),
    {
        self.0 & RTF_CONDEMNED != 0
    }

    /// Route holds a reference to its interface.
    pub fn is_ifref(&self) -> (r: bool)
        ensures
            r == (self.0 & RTF_IFREF != 0),
    {
        self.0 & RTF_IFREF != 0
    }

    /// Proxying, no interface scope.
    pub fn is_proxy(&self) -> (r: bool)
        ensures
            r == (self.0 & RTF_PROXY != 0),
    {
        self.0 & RTF_PROXY != 0
    }

    /// Host is a router.
    pub fn is_router(&self) -> (r: bool)
        ensures
            r == (self.0 & RTF_ROUTER != 0),
    {
        self.0 & RTF_ROUTER != 0
    }

    /// Route entry is being freed.
    pub fn is_dead(&self) -> (r: bool)
        ensures
            r == (self.0 & RTF_DEAD != 0),
    {
        self.0 & RTF_DEAD != 0
    }
}

/// The decoded socket-address slots of one message. Exactly the slots
/// whose mask bit was set, and whose record was reached and modeled, are
/// populated.
#[derive(Debug, Clone)]
pub struct AddressSet {
    pub destination: Option<SockAddr>,
    pub gateway: Option<SockAddr>,
    pub netmask: Option<IpAddress>,
    pub genmask: Option<IpAddress>,
    pub broadcast: Option<IpAddress>,
    pub interface_addr: Option<SockAddr>,
    pub interface_link: Option<DataLinkAddr>,
}

/// Mathematical value of an `AddressSet`.
pub ghost struct AddressSetV {
    pub destination: Option<SockAddrV>,
    pub gateway: Option<SockAddrV>,
    pub netmask: Option<IpAddress>,
    pub genmask: Option<IpAddress>,
    pub broadcast: Option<IpAddress>,
    pub interface_addr: Option<SockAddrV>,
    pub interface_link: Option<DataLinkAddrV>,
}

/// Mathematical value of an optional socket address.
pub open spec fn opt_sa_view(o: Option<SockAddr>) -> Option<SockAddrV> {
    match o {
        Some(sa) => Some(sa@),
        None => None,
    }
}

/// Mathematical value of an optional link-layer address.
pub open spec fn opt_la_view(o: Option<DataLinkAddr>) -> Option<DataLinkAddrV> {
    match o {
        Some(la) => Some(la@),
        None => None,
    }
}

impl View for AddressSet {
    type V = AddressSetV;

    open spec fn view(&self) -> AddressSetV {
        AddressSetV {
            destination: opt_sa_view(self.destination),
            gateway: opt_sa_view(self.gateway),
            netmask: self.netmask,
            genmask: self.genmask,
            broadcast: self.broadcast,
            interface_addr: opt_sa_view(self.interface_addr),
            interface_link: opt_la_view(self.interface_link),
        }
    }
}

/// The address set with no slot populated.
pub open spec fn empty_set_v() -> AddressSetV {
    AddressSetV {
        destination: None,
        gateway: None,
        netmask: None,
        genmask: None,
        broadcast: None,
        interface_addr: None,
        interface_link: None,
    }
}

/// The mask bit of each slot, in canonical slot order.
pub open spec fn slot_bit(slot: int) -> i32 {
    if slot == 0 {
        RTA_DST
    } else if slot == 1 {
        RTA_GATEWAY
    } else if slot == 2 {
        RTA_NETMASK
    } else if slot == 3 {
        RTA_GENMASK
    } else if slot == 4 {
        RTA_IFP
    } else if slot == 5 {
        RTA_IFA
    } else if slot == 6 {
        RTA_AUTHOR
    } else {
        RTA_BRD
    }
}

/// Whether the mask announces a record for the given slot.
pub open spec fn mask_has(mask: i32, slot: int) -> bool {
    mask & slot_bit(slot) != 0
}

/// What parsing the slots from `slot` onward yields, starting at `offset`
/// into `data` with the slots gathered so far in `acc`: the final set and
/// offset, or the failure. Slots without their mask bit are passed over;
/// reaching the end of `data` early returns the partial set; the netmask
/// slot falls back to raw address bytes — sized after the previously
/// parsed destination or gateway — when its record has no usable family.
pub open spec fn parse_slots_v(
    data: Seq<u8>,
    mask: i32,
    slot: int,
    offset: nat,
    acc: AddressSetV,
) -> Result<(AddressSetV, nat), AddressParseError>
    decreases 8 - slot,
{
    if slot < 0 || slot >= 8 {
        Ok((acc, offset))
    } else if !mask_has(mask, slot) {
        parse_slots_v(data, mask, slot + 1, offset, acc)
    } else if offset >= data.len() {
        Ok((acc, offset))
    } else {
        let tail = data.subrange(offset as int, data.len() as int);
        if slot == 0 {
            match parse_record_v(tail) {
                Err(e) => Err(e),
                Ok((sa, n)) => parse_slots_v(
                    data,
                    mask,
                    1,
                    offset + n,
                    AddressSetV { destination: sa, ..acc },
                ),
            }
        } else if slot == 1 {
            match parse_record_v(tail) {
                Err(e) => Err(e),
                Ok((sa, n)) => parse_slots_v(
                    data,
                    mask,
                    2,
                    offset + n,
                    AddressSetV { gateway: sa, ..acc },
                ),
            }
        } else if slot == 2 {
            match parse_ip_v(tail) {
                Ok((sa, n)) => parse_slots_v(
                    data,
                    mask,
                    3,
                    offset + n,
                    AddressSetV { netmask: Some(ip_of(sa)), ..acc },
                ),
                Err(e) => {
                    let sample = if acc.destination is Some {
                        acc.destination
                    } else {
                        acc.gateway
                    };
                    match sample {
                        Some(SockAddrV::V4(_)) => if offset + 4 <= data.len() {
                            parse_slots_v(
                                data,
                                mask,
                                3,
                                offset + 4,
                                AddressSetV {
                                    netmask: Some(IpAddress::V4(be32_at(data, offset as int))),
                                    ..acc
                                },
                            )
                        } else {
                            Err(AddressParseError::PartialData)
                        },
                        Some(SockAddrV::V6(_)) => if offset + 16 <= data.len() {
                            parse_slots_v(
                                data,
                                mask,
                                3,
                                offset + 16,
                                AddressSetV {
                                    netmask: Some(IpAddress::V6(be128_at(data, offset as int))),
                                    ..acc
                                },
                            )
                        } else {
                            Err(AddressParseError::PartialData)
                        },
                        _ => Err(e),
                    }
                },
            }
        } else if slot == 3 {
            match parse_ip_v(tail) {
                Err(e) => Err(e),
                Ok((sa, n)) => parse_slots_v(
                    data,
                    mask,
                    4,
                    offset + n,
                    AddressSetV { genmask: Some(ip_of(sa)), ..acc },
                ),
            }
        } else if slot == 4 {
            match parse_link_v(tail) {
                Err(e) => Err(e),
                Ok((la, n)) => parse_slots_v(
                    data,
                    mask,
                    5,
                    offset + n,
                    AddressSetV { interface_link: Some(la), ..acc },
                ),
            }
        } else if slot == 5 {
            match parse_record_v(tail) {
                Err(e) => Err(e),
                Ok((sa, n)) => parse_slots_v(
                    data,
                    mask,
                    6,
                    offset + n,
                    AddressSetV { interface_addr: sa, ..acc },
                ),
            }
        } else if slot == 6 {
            // The author record is parsed and discarded.
            match parse_record_v(tail) {
                Err(e) => Err(e),
                Ok((_, n)) => parse_slots_v(data, mask, 7, offset + n, acc),
            }
        } else {
            match parse_ip_v(tail) {
                Err(e) => Err(e),
                Ok((sa, n)) => parse_slots_v(
                    data,
                    mask,
                    8,
                    offset + n,
                    AddressSetV { broadcast: Some(ip_of(sa)), ..acc },
                ),
            }
        }
    }
}

/// What parsing a whole address region with the given mask yields.
pub open spec fn parse_addr_set_v(data: Seq<u8>, mask: i32) -> Result<
    (AddressSetV, nat),
    AddressParseError,
> {
    parse_slots_v(data, mask, 0, 0, empty_set_v())
}

/// The raw IP of a record known not to be link-layer.
fn ip_of_exec(sa: &SockAddr) -> (r: IpAddress)
    requires
        !(sa@ is Link),
    ensures
        r == ip_of(sa@),
{
    match sa {
        SockAddr::V4(a) => IpAddress::V4(a.addr),
        SockAddr::V6(a) => IpAddress::V6(a.addr),
        SockAddr::Link(_) => vstd::pervasive::unreached(),
    }
}

/// Whether a slot left the walk running or ended it early (the region
/// was exhausted before the slot's record).
enum SlotStep {
    Go,
    Done,
}

/// One equality step of the slot walk: what the walk from `slot` on the
/// pre-state yields is what it yields from `slot + 1` on the post-state,
/// or the walk is over with the stated outcome.
spec fn slot_step_ok(
    data: Seq<u8>,
    mask: i32,
    slot: int,
    r: Result<SlotStep, AddressParseError>,
    off0: nat,
    set0: AddressSetV,
    off1: nat,
    set1: AddressSetV,
) -> bool {
    match r {
        Ok(SlotStep::Go) => parse_slots_v(data, mask, slot, off0, set0) == parse_slots_v(
            data,
            mask,
            slot + 1,
            off1,
            set1,
        ),
        Ok(SlotStep::Done) => parse_slots_v(data, mask, slot, off0, set0) == Ok::<
            _,
            AddressParseError,
        >((set1, off1)),
        Err(e) => parse_slots_v(data, mask, slot, off0, set0) == Err::<(AddressSetV, nat), _>(e),
    }
}

/// Destination slot.
fn slot_destination(data: &[u8], flags: &AddressFlags, offset: &mut usize, set: &mut AddressSet)
    -> (r: Result<SlotStep, AddressParseError>)
    requires
        data@.len() + 256 <= usize::MAX,
    ensures
        slot_step_ok(
            data@,
            flags.0,
            0,
            r,
            *old(offset) as nat,
            old(set)@,
            *final(offset) as nat,
            final(set)@,
        ),
{
    proof {
        vstd::slice::axiom_spec_len::<u8>(data);
    }
    if !flags.has_destination() {
        return Ok(SlotStep::Go);
    }
    if *offset >= data.len() {
        return Ok(SlotStep::Done);
    }
    let tail = slice_subrange(data, *offset, data.len());
    match parse_address(tail) {
        Err(e) => Err(e),
        Ok((sa, n)) => {
            proof {
                lemma_consumed_matches_declared_length(tail@);
            }
            let ghost acc0 = set@;
            set.destination = sa;
            *offset = *offset + n;
            proof {
                assert(set@ == AddressSetV { destination: opt_sa_view(sa), ..acc0 });
            }
            Ok(SlotStep::Go)
        },
    }
}

/// Gateway slot.
fn slot_gateway(data: &[u8], flags: &AddressFlags, offset: &mut usize, set: &mut AddressSet) -> (r:
    Result<SlotStep, AddressParseError>)
    requires
        data@.len() + 256 <= usize::MAX,
    ensures
        slot_step_ok(
            data@,
            flags.0,
            1,
            r,
            *old(offset) as nat,
            old(set)@,
            *final(offset) as nat,
            final(set)@,
        ),
{
    proof {
        vstd::slice::axiom_spec_len::<u8>(data);
    }
    if !flags.has_gateway() {
        return Ok(SlotStep::Go);
    }
    if *offset >= data.len() {
        return Ok(SlotStep::Done);
    }
    let tail = slice_subrange(data, *offset, data.len());
    match parse_address(tail) {
        Err(e) => Err(e),
        Ok((sa, n)) => {
            proof {
                lemma_consumed_matches_declared_length(tail@);
            }
            let ghost acc0 = set@;
            set.gateway = sa;
            *offset = *offset + n;
            proof {
                assert(set@ == AddressSetV { gateway: opt_sa_view(sa), ..acc0 });
            }
            Ok(SlotStep::Go)
        },
    }
}

/// Netmask slot, with the raw-bytes fallback: when the record's family
/// is unusable, a previously parsed IPv4 (or IPv6) destination or
/// gateway fixes the mask's size and the next 4 (or 16) bytes are taken
/// as the mask itself.
fn slot_netmask(data: &[u8], flags: &AddressFlags, offset: &mut usize, set: &mut AddressSet) -> (r:
    Result<SlotStep, AddressParseError>)
    requires
        data@.len() + 256 <= usize::MAX,
    ensures
        slot_step_ok(
            data@,
            flags.0,
            2,
            r,
            *old(offset) as nat,
            old(set)@,
            *final(offset) as nat,
            final(set)@,
        ),
{
    proof {
        vstd::slice::axiom_spec_len::<u8>(data);
    }
    if !flags.has_netmask() {
        return Ok(SlotStep::Go);
    }
    if *offset >= data.len() {
        return Ok(SlotStep::Done);
    }
    let tail = slice_subrange(data, *offset, data.len());
    match parse_ip(tail) {
        Ok((sa, n)) => {
            proof {
                lemma_consumed_matches_declared_length(tail@);
            }
            let ghost acc0 = set@;
            set.netmask = Some(ip_of_exec(&sa));
            *offset = *offset + n;
            proof {
                assert(set@ == AddressSetV { netmask: Some(ip_of(sa@)), ..acc0 });
            }
            Ok(SlotStep::Go)
        },
        Err(e) => {
            let sample_v4 = match (&set.destination, &set.gateway) {
                (Some(SockAddr::V4(_)), _) => true,
                (None, Some(SockAddr::V4(_))) => true,
                _ => false,
            };
            let sample_v6 = match (&set.destination, &set.gateway) {
                (Some(SockAddr::V6(_)), _) => true,
                (None, Some(SockAddr::V6(_))) => true,
                _ => false,
            };
            if sample_v4 {
                if *offset + 4 > data.len() {
                    return Err(AddressParseError::PartialData);
                }
                let ghost acc0 = set@;
                let m = read_be32(data, *offset);
                set.netmask = Some(IpAddress::V4(m));
                *offset = *offset + 4;
                proof {
                    assert(set@ == AddressSetV {
                        netmask: Some(IpAddress::V4(be32_at(data@, *offset - 4))),
                        ..acc0
                    });
                }
                Ok(SlotStep::Go)
            } else if sample_v6 {
                if *offset + 16 > data.len() {
                    return Err(AddressParseError::PartialData);
                }
                let ghost acc0 = set@;
                let m = read_be128(data, *offset);
                set.netmask = Some(IpAddress::V6(m));
                *offset = *offset + 16;
                proof {
                    assert(set@ == AddressSetV {
                        netmask: Some(IpAddress::V6(be128_at(data@, *offset - 16))),
                        ..acc0
                    });
                }
                Ok(SlotStep::Go)
            } else {
                Err(e)
            }
        },
    }
}

/// Genmask slot, kept as a raw IP.
fn slot_genmask(data: &[u8], flags: &AddressFlags, offset: &mut usize, set: &mut AddressSet) -> (r:
    Result<SlotStep, AddressParseError>)
    requires
        data@.len() + 256 <= usize::MAX,
    ensures
        slot_step_ok(
            data@,
            flags.0,
            3,
            r,
            *old(offset) as nat,
            old(set)@,
            *final(offset) as nat,
            final(set)@,
        ),
{
    proof {
        vstd::slice::axiom_spec_len::<u8>(data);
    }
    if !flags.has_genmask() {
        return Ok(SlotStep::Go);
    }
    if *offset >= data.len() {
        return Ok(SlotStep::Done);
    }
    let tail = slice_subrange(data, *offset, data.len());
    match parse_ip(tail) {
        Err(e) => Err(e),
        Ok((sa, n)) => {
            proof {
                lemma_consumed_matches_declared_length(tail@);
            }
            let ghost acc0 = set@;
            set.genmask = Some(ip_of_exec(&sa));
            *offset = *offset + n;
            proof {
                assert(set@ == AddressSetV { genmask: Some(ip_of(sa@)), ..acc0 });
            }
            Ok(SlotStep::Go)
        },
    }
}

/// Interface-link slot.
fn slot_interface_link(data: &[u8], flags: &AddressFlags, offset: &mut usize, set: &mut AddressSet)
    -> (r: Result<SlotStep, AddressParseError>)
    requires
        data@.len() + 256 <= usize::MAX,
    ensures
        slot_step_ok(
            data@,
            flags.0,
            4,
            r,
            *old(offset) as nat,
            old(set)@,
            *final(offset) as nat,
            final(set)@,
        ),
{
    proof {
        vstd::slice::axiom_spec_len::<u8>(data);
    }
    if !flags.has_interface_link() {
        return Ok(SlotStep::Go);
    }
    if *offset >= data.len() {
        return Ok(SlotStep::Done);
    }
    let tail = slice_subrange(data, *offset, data.len());
    match parse_link(tail) {
        Err(e) => Err(e),
        Ok((la, n)) => {
            proof {
                lemma_consumed_matches_declared_length(tail@);
            }
            let ghost acc0 = set@;
            set.interface_link = Some(la);
            *offset = *offset + n;
            proof {
                assert(set@ == AddressSetV {
                    interface_link: opt_la_view(set.interface_link),
                    ..acc0
                });
            }
            Ok(SlotStep::Go)
        },
    }
}

/// Interface-address slot.
fn slot_interface_addr(data: &[u8], flags: &AddressFlags, offset: &mut usize, set: &mut AddressSet)
    -> (r: Result<SlotStep, AddressParseError>)
    requires
        data@.len() + 256 <= usize::MAX,
    ensures
        slot_step_ok(
            data@,
            flags.0,
            5,
            r,
            *old(offset) as nat,
            old(set)@,
            *final(offset) as nat,
            final(set)@,
        ),
{
    proof {
        vstd::slice::axiom_spec_len::<u8>(data);
    }
    if !flags.has_interface_address() {
        return Ok(SlotStep::Go);
    }
    if *offset >= data.len() {
        return Ok(SlotStep::Done);
    }
    let tail = slice_subrange(data, *offset, data.len());
    match parse_address(tail) {
        Err(e) => Err(e),
        Ok((sa, n)) => {
            proof {
                lemma_consumed_matches_declared_length(tail@);
            }
            let ghost acc0 = set@;
            set.interface_addr = sa;
            *offset = *offset + n;
            proof {
                assert(set@ == AddressSetV { interface_addr: opt_sa_view(sa), ..acc0 });
            }
            Ok(SlotStep::Go)
        },
    }
}

/// Author slot: the record is parsed and discarded.
fn slot_author(data: &[u8], flags: &AddressFlags, offset: &mut usize, set: &mut AddressSet) -> (r:
    Result<SlotStep, AddressParseError>)
    requires
        data@.len() + 256 <= usize::MAX,
    ensures
        slot_step_ok(
            data@,
            flags.0,
            6,
            r,
            *old(offset) as nat,
            old(set)@,
            *final(offset) as nat,
            final(set)@,
        ),
{
    proof {
        vstd::slice::axiom_spec_len::<u8>(data);
    }
    if !flags.has_author() {
        return Ok(SlotStep::Go);
    }
    if *offset >= data.len() {
        return Ok(SlotStep::Done);
    }
    let tail = slice_subrange(data, *offset, data.len());
    match parse_address(tail) {
        Err(e) => Err(e),
        Ok((_, n)) => {
            proof {
                lemma_consumed_matches_declared_length(tail@);
            }
            *offset = *offset + n;
            Ok(SlotStep::Go)
        },
    }
}

/// Broadcast slot, kept as a raw IP.
fn slot_broadcast(data: &[u8], flags: &AddressFlags, offset: &mut usize, set: &mut AddressSet)
    -> (r: Result<SlotStep, AddressParseError>)
    requires
        data@.len() + 256 <= usize::MAX,
    ensures
        slot_step_ok(
            data@,
            flags.0,
            7,
            r,
            *old(offset) as nat,
            old(set)@,
            *final(offset) as nat,
            final(set)@,
        ),
{
    proof {
        vstd::slice::axiom_spec_len::<u8>(data);
    }
    if !flags.has_brd() {
        return Ok(SlotStep::Go);
    }
    if *offset >= data.len() {
        return Ok(SlotStep::Done);
    }
    let tail = slice_subrange(data, *offset, data.len());
    match parse_ip(tail) {
        Err(e) => Err(e),
        Ok((sa, n)) => {
            proof {
                lemma_consumed_matches_declared_length(tail@);
            }
            let ghost acc0 = set@;
            set.broadcast = Some(ip_of_exec(&sa));
            *offset = *offset + n;
            proof {
                assert(set@ == AddressSetV { broadcast: Some(ip_of(sa@)), ..acc0 });
            }
            Ok(SlotStep::Go)
        },
    }
}

impl AddressSet {
    /// Walks the socket-address region that follows a message header,
    /// consuming one record per bit set in `flags`, in canonical slot
    /// order, and advancing by each record's declared length.
    pub fn from_raw(data: &[u8], flags: &AddressFlags) -> (r: Result<
        AddressSet,
        AddressParseError,
    >)
        requires
            data@.len() + 256 <= usize::MAX,
        ensures
            (match r {
                Ok(s) => parse_addr_set_v(data@, flags.0) matches Ok(p) && p.0 == s@,
                Err(e) => parse_addr_set_v(data@, flags.0) == Err::<(AddressSetV, nat), _>(e),
            }),
{
        let ghost mask: i32 = flags.0;
        let mut offset: usize = 0;
        let mut set = AddressSet {
            destination: None,
            gateway: None,
            netmask: None,
            genmask: None,
            broadcast: None,
            interface_addr: None,
            interface_link: None,
        };
        proof {
            assert(set@ == empty_set_v());
        }
        match slot_destination(data, flags, &mut offset, &mut set) {
            Err(e) => {
                return Err(e);
            },
            Ok(SlotStep::Done) => {
                return Ok(set);
            },
            Ok(SlotStep::Go) => {},
        }
        proof {
            assert(parse_addr_set_v(data@, mask) == parse_slots_v(
                data@,
                mask,
                1,
                offset as nat,
                set@,
            ));
        }
        match slot_gateway(data, flags, &mut offset, &mut set) {
            Err(e) => {
                return Err(e);
            },
            Ok(SlotStep::Done) => {
                return Ok(set);
            },
            Ok(SlotStep::Go) => {},
        }
        match slot_netmask(data, flags, &mut offset, &mut set) {
            Err(e) => {
                return Err(e);
            },
            Ok(SlotStep::Done) => {
                return Ok(set);
            },
            Ok(SlotStep::Go) => {},
        }
        match slot_genmask(data, flags, &mut offset, &mut set) {
            Err(e) => {
                return Err(e);
            },
            Ok(SlotStep::Done) => {
                return Ok(set);
            },
            Ok(SlotStep::Go) => {},
        }
        match slot_interface_link(data, flags, &mut offset, &mut set) {
            Err(e) => {
                return Err(e);
            },
            Ok(SlotStep::Done) => {
                return Ok(set);
            },
            Ok(SlotStep::Go) => {},
        }
        match slot_interface_addr(data, flags, &mut offset, &mut set) {
            Err(e) => {
                return Err(e);
            },
            Ok(SlotStep::Done) => {
                return Ok(set);
            },
            Ok(SlotStep::Go) => {},
        }
        match slot_author(data, flags, &mut offset, &mut set) {
            Err(e) => {
                return Err(e);
            },
            Ok(SlotStep::Done) => {
                return Ok(set);
            },
            Ok(SlotStep::Go) => {},
        }
        match slot_broadcast(data, flags, &mut offset, &mut set) {
            Err(e) => {
                return Err(e);
            },
            Ok(SlotStep::Done) => {
                return Ok(set);
            },
            Ok(SlotStep::Go) => {},
        }
        proof {
            assert(parse_slots_v(data@, mask, 8, offset as nat, set@) == Ok::<
                _,
                AddressParseError,
            >((set@, offset as nat)));
        }
        Ok(set)
    }
}


/// An interface-address message: an address added to or removed from an
/// interface, with its metric, route flags and socket-address slots.
#[derive(Debug)]
pub struct AddressInfo {
    pub operation: AddressOperation,
    pub index: u16,
    pub metric: i32,
    pub flags: AddressInfoFlags,
    pub addrs: AddressSet,
}

/// Mathematical value of an `AddressInfo`.
pub ghost struct AddressInfoV {
    pub operation: AddressOperation,
    pub index: u16,
    pub metric: i32,
    pub flags: AddressInfoFlags,
    pub addrs: AddressSetV,
}

impl View for AddressInfo {
    type V = AddressInfoV;

    open spec fn view(&self) -> AddressInfoV {
        AddressInfoV {
            operation: self.operation,
            index: self.index,
            metric: self.metric,
            flags: self.flags,
            addrs: self.addrs@,
        }
    }
}

/// What decoding an interface-address message yields: `None` for kinds
/// other than add and delete, otherwise the header fields and the
/// address slots that follow the fixed header.
pub open spec fn addr_info_v(data: Seq<u8>) -> Result<Option<AddressInfoV>, AddressParseError> {
    if data.len() < IFA_MSGHDR_LEN {
        Err(AddressParseError::PartialData)
    } else if data[3] != RTM_NEWADDR && data[3] != RTM_DELADDR {
        Ok(None)
    } else {
        let op = if data[3] == RTM_NEWADDR {
            AddressOperation::Add
        } else {
            AddressOperation::Delete
        };
        match parse_addr_set_v(
            data.subrange(IFA_MSGHDR_LEN as int, data.len() as int),
            le32i_at(data, 4),
        ) {
            Err(e) => Err(e),
            Ok((set, _)) => Ok(
                Some(
                    AddressInfoV {
                        operation: op,
                        index: le16_at(data, 12),
                        metric: le32i_at(data, 16),
                        flags: AddressInfoFlags(le32i_at(data, 8)),
                        addrs: set,
                    },
                ),
            ),
        }
    }
}

impl AddressInfo {
    /// Decodes an interface-address message: the fixed header's type,
    /// index, metric and flag fields, then the address slots announced
    /// by the header's address mask.
    pub fn from_raw(data: &[u8]) -> (r: Result<Option<AddressInfo>, AddressParseError>)
        requires
            data@.len() + 256 <= usize::MAX,
        ensures
            (match r {
                Ok(None) => addr_info_v(data@) == Ok::<Option<AddressInfoV>, AddressParseError>(None),
                Ok(Some(info)) => addr_info_v(data@) matches Ok(Some(iv)) && iv == info@,
                Err(e) => addr_info_v(data@) == Err::<Option<AddressInfoV>, AddressParseError>(e),
            }),
    {
        proof {
            vstd::slice::axiom_spec_len::<u8>(data);
        }
        if data.len() < IFA_MSGHDR_LEN {
            return Err(AddressParseError::PartialData);
        }
        let ty = data[3];
        if ty != RTM_NEWADDR && ty != RTM_DELADDR {
            return Ok(None);
        }
        let operation = if ty == RTM_NEWADDR {
            AddressOperation::Add
        } else {
            AddressOperation::Delete
        };
        let flags = AddressInfoFlags::new(read_le32i(data, 8));
        let addr_flags = AddressFlags::new(read_le32i(data, 4));
        let tail = slice_subrange(data, IFA_MSGHDR_LEN, data.len());
        match AddressSet::from_raw(tail, &addr_flags) {
            Err(e) => Err(e),
            Ok(addrs) => Ok(
                Some(
                    AddressInfo {
                        operation,
                        index: read_le16(data, 12),
                        metric: read_le32i(data, 16),
                        flags,
                        addrs,
                    },
                ),
            ),
        }
    }
}

/// Slots at positions before `slot`, and slots whose mask bit is clear,
/// come out of the walk exactly as they went in.
proof fn lemma_slots_respect_mask(data: Seq<u8>, mask: i32, slot: int, offset: nat, acc: AddressSetV)
    requires
        0 <= slot,
    ensures
        parse_slots_v(data, mask, slot, offset, acc) matches Ok((s, _)) ==> {
            &&& (slot > 0 || !mask_has(mask, 0)) ==> s.destination == acc.destination
            &&& (slot > 1 || !mask_has(mask, 1)) ==> s.gateway == acc.gateway
            &&& (slot > 2 || !mask_has(mask, 2)) ==> s.netmask == acc.netmask
            &&& (slot > 3 || !mask_has(mask, 3)) ==> s.genmask == acc.genmask
            &&& (slot > 4 || !mask_has(mask, 4)) ==> s.interface_link == acc.interface_link
            &&& (slot > 5 || !mask_has(mask, 5)) ==> s.interface_addr == acc.interface_addr
            &&& (slot > 7 || !mask_has(mask, 7)) ==> s.broadcast == acc.broadcast
        },
    decreases 8 - slot,
{
    if slot >= 8 {
    } else if !mask_has(mask, slot) {
        lemma_slots_respect_mask(data, mask, slot + 1, offset, acc);
    } else if offset >= data.len() {
    } else {
        let tail = data.subrange(offset as int, data.len() as int);
        if slot == 0 {
            match parse_record_v(tail) {
                Err(_) => {},
                Ok((sa, n)) => {
                    lemma_slots_respect_mask(
                        data,
                        mask,
                        1,
                        offset + n,
                        AddressSetV { destination: sa, ..acc },
                    );
                },
            }
        } else if slot == 1 {
            match parse_record_v(tail) {
                Err(_) => {},
                Ok((sa, n)) => {
                    lemma_slots_respect_mask(
                        data,
                        mask,
                        2,
                        offset + n,
                        AddressSetV { gateway: sa, ..acc },
                    );
                },
            }
        } else if slot == 2 {
            match parse_ip_v(tail) {
                Ok((sa, n)) => {
                    lemma_slots_respect_mask(
                        data,
                        mask,
                        3,
                        offset + n,
                        AddressSetV { netmask: Some(ip_of(sa)), ..acc },
                    );
                },
                Err(_) => {
                    let sample = if acc.destination is Some {
                        acc.destination
                    } else {
                        acc.gateway
                    };
                    match sample {
                        Some(SockAddrV::V4(_)) => {
                            if offset + 4 <= data.len() {
                                lemma_slots_respect_mask(
                                    data,
                                    mask,
                                    3,
                                    offset + 4,
                                    AddressSetV {
                                        netmask: Some(
                                            IpAddress::V4(be32_at(data, offset as int)),
                                        ),
                                        ..acc
                                    },
                                );
                            }
                        },
                        Some(SockAddrV::V6(_)) => {
                            if offset + 16 <= data.len() {
                                lemma_slots_respect_mask(
                                    data,
                                    mask,
                                    3,
                                    offset + 16,
                                    AddressSetV {
                                        netmask: Some(
                                            IpAddress::V6(be128_at(data, offset as int)),
                                        ),
                                        ..acc
                                    },
                                );
                            }
                        },
                        _ => {},
                    }
                },
            }
        } else if slot == 3 {
            match parse_ip_v(tail) {
                Err(_) => {},
                Ok((sa, n)) => {
                    lemma_slots_respect_mask(
                        data,
                        mask,
                        4,
                        offset + n,
                        AddressSetV { genmask: Some(ip_of(sa)), ..acc },
                    );
                },
            }
        } else if slot == 4 {
            match parse_link_v(tail) {
                Err(_) => {},
                Ok((la, n)) => {
                    lemma_slots_respect_mask(
                        data,
                        mask,
                        5,
                        offset + n,
                        AddressSetV { interface_link: Some(la), ..acc },
                    );
                },
            }
        } else if slot == 5 {
            match parse_record_v(tail) {
                Err(_) => {},
                Ok((sa, n)) => {
                    lemma_slots_respect_mask(
                        data,
                        mask,
                        6,
                        offset + n,
                        AddressSetV { interface_addr: sa, ..acc },
                    );
                },
            }
        } else if slot == 6 {
            match parse_record_v(tail) {
                Err(_) => {},
                Ok((_, n)) => {
                    lemma_slots_respect_mask(data, mask, 7, offset + n, acc);
                },
            }
        } else {
            match parse_ip_v(tail) {
                Err(_) => {},
                Ok((sa, n)) => {
                    lemma_slots_respect_mask(
                        data,
                        mask,
                        8,
                        offset + n,
                        AddressSetV { broadcast: Some(ip_of(sa)), ..acc },
                    );
                },
            }
        }
    }
}

/// Only slots whose bit is set in the address mask can be populated in
/// the parsed set; the others come out empty. (The slots that are
/// populated are filled in the canonical order, one recursion step per
/// slot of `parse_slots_v`.)
pub proof fn lemma_address_set_respects_mask(data: Seq<u8>, mask: i32)
    ensures
        parse_addr_set_v(data, mask) matches Ok((s, _)) ==> {
            &&& !mask_has(mask, 0) ==> s.destination is None
            &&& !mask_has(mask, 1) ==> s.gateway is None
            &&& !mask_has(mask, 2) ==> s.netmask is None
            &&& !mask_has(mask, 3) ==> s.genmask is None
            &&& !mask_has(mask, 4) ==> s.interface_link is None
            &&& !mask_has(mask, 5) ==> s.interface_addr is None
            &&& !mask_has(mask, 7) ==> s.broadcast is None
        },
{
    lemma_slots_respect_mask(data, mask, 0, 0, empty_set_v());
}

/// The netmask fallback fires exactly when the record itself cannot be
/// parsed as an IP and an earlier destination or gateway fixed the
/// family: an IPv4 sample takes the next 4 raw bytes as the mask, an
/// IPv6 sample the next 16, and with no such sample the record's own
/// failure is the walk's outcome.
pub proof fn lemma_netmask_fallback(data: Seq<u8>, mask: i32, offset: nat, acc: AddressSetV)
    requires
        mask_has(mask, 2),
        offset < data.len(),
    ensures
        ({
            let tail = data.subrange(offset as int, data.len() as int);
            let r = parse_slots_v(data, mask, 2, offset, acc);
            let sample = if acc.destination is Some {
                acc.destination
            } else {
                acc.gateway
            };
            &&& (parse_ip_v(tail) matches Ok((sa, n)) ==> r == parse_slots_v(
                data,
                mask,
                3,
                offset + n,
                AddressSetV { netmask: Some(ip_of(sa)), ..acc },
            ))
            &&& (parse_ip_v(tail) is Err && (sample matches Some(SockAddrV::V4(_))) && offset + 4
                <= data.len() ==> r == parse_slots_v(
                data,
                mask,
                3,
                offset + 4,
                AddressSetV { netmask: Some(IpAddress::V4(be32_at(data, offset as int))), ..acc },
            ))
            &&& (parse_ip_v(tail) is Err && (sample matches Some(SockAddrV::V6(_))) && offset + 16
                <= data.len() ==> r == parse_slots_v(
                data,
                mask,
                3,
                offset + 16,
                AddressSetV { netmask: Some(IpAddress::V6(be128_at(data, offset as int))), ..acc },
            ))
            &&& (parse_ip_v(tail) is Err && acc.destination is None && acc.gateway is None ==> r
                == Err::<(AddressSetV, nat), _>(parse_ip_v(tail)->Err_0))
        }),
{
}

} // verus!
