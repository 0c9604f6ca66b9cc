//! Constants of the BSD routing-socket wire format, with the values used
//! on the Darwin targets this tool runs on (address families, message
//! kinds, per-slot address bits, route and interface flag bits, and the
//! sizes of the fixed message headers).

use vstd::prelude::*;

verus! {

// Address families, as they appear in the family byte of a socket-address
// record.
pub const AF_INET: u8 = 2;

pub const AF_LINK: u8 = 18;

pub const AF_INET6: u8 = 30;

// Message kinds, as they appear in the type byte of a message header.
pub const RTM_ADD: u8 = 0x1;

pub const RTM_DELETE: u8 = 0x2;

pub const RTM_CHANGE: u8 = 0x3;

pub const RTM_GET: u8 = 0x4;

pub const RTM_OLDADD: u8 = 0x9;

pub const RTM_OLDDEL: u8 = 0xa;

pub const RTM_NEWADDR: u8 = 0xc;

pub const RTM_DELADDR: u8 = 0xd;

pub const RTM_IFINFO: u8 = 0xe;

pub const RTM_NEWMADDR: u8 = 0xf;

pub const RTM_DELMADDR: u8 = 0x10;

pub const RTM_IFINFO2: u8 = 0x12;

pub const RTM_NEWMADDR2: u8 = 0x13;

pub const RTM_GET2: u8 = 0x14;

/// Version byte carried by every route message.
pub const RTM_VERSION: u8 = 5;

// Bits of the "addresses present" mask, one per socket-address slot, in
// the canonical slot order.
pub const RTA_DST: i32 = 0x1;

pub const RTA_GATEWAY: i32 = 0x2;

pub const RTA_NETMASK: i32 = 0x4;

pub const RTA_GENMASK: i32 = 0x8;

pub const RTA_IFP: i32 = 0x10;

pub const RTA_IFA: i32 = 0x20;

pub const RTA_AUTHOR: i32 = 0x40;

pub const RTA_BRD: i32 = 0x80;

// Route flag bits (`rtm_flags` of a route message, `ifam_flags` of an
// address message).
pub const RTF_UP: i32 = 0x1;

pub const RTF_GATEWAY: i32 = 0x2;

pub const RTF_HOST: i32 = 0x4;

pub const RTF_REJECT: i32 = 0x8;

pub const RTF_DYNAMIC: i32 = 0x10;

pub const RTF_MODIFIED: i32 = 0x20;

pub const RTF_DONE: i32 = 0x40;

pub const RTF_DELCLONE: i32 = 0x80;

pub const RTF_CLONING: i32 = 0x100;

pub const RTF_XRESOLVE: i32 = 0x200;

pub const RTF_LLINFO: i32 = 0x400;

pub const RTF_STATIC: i32 = 0x800;

pub const RTF_BLACKHOLE: i32 = 0x1000;

pub const RTF_NOIFREF: i32 = 0x2000;

pub const RTF_PROTO2: i32 = 0x4000;

pub const RTF_PROTO1: i32 = 0x8000;

pub const RTF_PRCLONING: i32 = 0x10000;

pub const RTF_WASCLONED: i32 = 0x20000;

pub const RTF_PROTO3: i32 = 0x40000;

pub const RTF_LOCAL: i32 = 0x200000;

pub const RTF_BROADCAST: i32 = 0x400000;

pub const RTF_MULTICAST: i32 = 0x800000;

pub const RTF_IFSCOPE: i32 = 0x1000000;

pub const RTF_CONDEMNED: i32 = 0x2000000;

pub const RTF_IFREF: i32 = 0x4000000;

pub const RTF_PROXY: i32 = 0x8000000;

pub const RTF_ROUTER: i32 = 0x10000000;

pub const RTF_DEAD: i32 = 0x20000000;

// Interface flag bits (`ifm_flags` of an interface-info message).
pub const IFF_UP: i32 = 0x1;

pub const IFF_BROADCAST: i32 = 0x2;

pub const IFF_DEBUG: i32 = 0x4;

pub const IFF_LOOPBACK: i32 = 0x8;

pub const IFF_POINTOPOINT: i32 = 0x10;

pub const IFF_NOTRAILERS: i32 = 0x20;

pub const IFF_RUNNING: i32 = 0x40;

pub const IFF_NOARP: i32 = 0x80;

pub const IFF_PROMISC: i32 = 0x100;

pub const IFF_ALLMULTI: i32 = 0x200;

pub const IFF_OACTIVE: i32 = 0x400;

pub const IFF_SIMPLEX: i32 = 0x800;

/// Bit of `rtm_inits` saying the hop-count metric is being initialized.
pub const RTV_HOPCOUNT: u32 = 0x2;

// Sizes of the fixed message headers, as laid out by the kernel.
/// Size of the header of a route message.
pub const RT_MSGHDR_LEN: usize = 92;

/// Offset of the metrics block inside a route-message header.
pub const RT_METRICS_OFFSET: usize = 36;

/// Size of the metrics block of a route-message header.
pub const RT_METRICS_LEN: usize = 56;

/// Size of the header of an interface-info message.
pub const IF_MSGHDR_LEN: usize = 112;

/// Size of the header of an interface-address message.
pub const IFA_MSGHDR_LEN: usize = 20;

/// Size of an IPv4 socket-address record.
pub const SOCKADDR_IN_LEN: usize = 16;

/// Size of a link-layer socket-address record.
pub const SOCKADDR_DL_LEN: usize = 20;

} // verus!
