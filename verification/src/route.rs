//! Route messages: routing-table changes and answers to route queries.

use vstd::prelude::*;

use crate::addresses::{parse_addr_set_v, AddressFlags, AddressSet, AddressSetV};
use crate::bytes::{le16_at, le32_at, le32i_at};
use crate::bytes::{read_le16, read_le32, read_le32i};
use crate::consts::{
    RTF_GATEWAY, RTF_UP, RTM_ADD, RTM_CHANGE, RTM_DELETE, RTM_GET, RTM_GET2, RT_METRICS_LEN,
    RT_METRICS_OFFSET, RT_MSGHDR_LEN,
};
use crate::sockaddr::AddressParseError;
use vstd::slice::slice_subrange;

verus! {

broadcast use vstd::slice::group_slice_axioms;

/// The routing-table operation a route message reports.
#[derive(Debug, Clone, Copy, PartialEq, Eq, Structural)]
pub enum MessageType {
    /// A route was added.
    Add,
    /// A route was deleted.
    Delete,
    /// Metrics or flags of a route changed.
    Change,
    /// Answer to a route query.
    Get,
    /// Second form of the answer to a route query.
    Get2,
}

impl MessageType {
    /// The operation named by a route message's type byte, if it is one
    /// this decoder models.
    pub fn from(value: u8) -> (r: Option<Self>)
        ensures
            r == MessageType::from_byte(value),
    {
        if value == RTM_ADD {
            Some(Self::Add)
        } else if value == RTM_DELETE {
            Some(Self::Delete)
        } else if value == RTM_CHANGE {
            Some(Self::Change)
        } else if value == RTM_GET {
            Some(Self::Get)
        } else if value == RTM_GET2 {
            Some(Self::Get2)
        } else {
            None
        }
    }

    /// Which operation each type byte names.
    pub open spec fn from_byte(value: u8) -> Option<MessageType> {
        if value == RTM_ADD {
            Some(MessageType::Add)
        } else if value == RTM_DELETE {
            Some(MessageType::Delete)
        } else if value == RTM_CHANGE {
            Some(MessageType::Change)
        } else if value == RTM_GET {
            Some(MessageType::Get)
        } else if value == RTM_GET2 {
            Some(MessageType::Get2)
        } else {
            None
        }
    }
}

/// The flag word of a route message.
#[derive(Debug, Clone, Copy)]
pub struct RoutingFlags(pub i32);

impl RoutingFlags {
    pub fn from_raw(flags: i32) -> (r: Self)
        ensures
            r.0 == flags,
    {
        Self(flags)
    }

    /// Route usable.
    pub fn is_up(&self) -> (r: bool)
        ensures
            r == (self.0 & RTF_UP != 0),
    {
        self.0 & RTF_UP != 0
    }

    /// Destination reached through a gateway.
    pub fn has_gateway(&self) -> (r: bool)
        ensures
            r == (self.0 & RTF_GATEWAY != 0),
    {
        self.0 & RTF_GATEWAY != 0
    }
}

/// The metrics block of a route message, decoded and preserved for
/// consumers; the wait-condition evaluator does not read it.
#[derive(Debug, Clone, Copy, PartialEq, Eq, Structural)]
pub struct RouteMetrics {
    pub mtu: u64,
    pub hopcount: u32,
    pub expire: i32,
    pub recvpipe: u64,
    pub sendpipe: u64,
    pub ssthresh: u64,
    pub rtt: u32,
    pub rttvar: u32,
    pub packets_sent: u64,
    pub state: u32,
}

/// Field layout of the metrics block (relative to its own start; the
/// leading word is the locks mask, which is not kept).
pub open spec fn metrics_v(data: Seq<u8>) -> RouteMetrics
    recommends
        data.len() >= RT_METRICS_LEN,
{
    RouteMetrics {
        mtu: le32_at(data, 4) as u64,
        hopcount: le32_at(data, 8),
        expire: le32i_at(data, 12),
        recvpipe: le32_at(data, 16) as u64,
        sendpipe: le32_at(data, 20) as u64,
        ssthresh: le32_at(data, 24) as u64,
        rtt: le32_at(data, 28),
        rttvar: le32_at(data, 32),
        packets_sent: le32_at(data, 36) as u64,
        state: le32_at(data, 40),
    }
}

impl RouteMetrics {
    /// Decodes the metrics block from its byte region.
    pub fn from_raw(data: &[u8]) -> (r: Self)
        requires
            data@.len() >= RT_METRICS_LEN,
        ensures
            r == metrics_v(data@),
    {
        RouteMetrics {
            mtu: read_le32(data, 4) as u64,
            hopcount: read_le32(data, 8),
            expire: read_le32i(data, 12),
            recvpipe: read_le32(data, 16) as u64,
            sendpipe: read_le32(data, 20) as u64,
            ssthresh: read_le32(data, 24) as u64,
            rtt: read_le32(data, 28),
            rttvar: read_le32(data, 32),
            packets_sent: read_le32(data, 36) as u64,
            state: read_le32(data, 40),
        }
    }
}

/// A decoded route message.
#[derive(Debug)]
pub struct RouteInfo {
    pub operation: MessageType,
    pub index: u16,
    pub flags: RoutingFlags,
    pub metrics: RouteMetrics,
    pub addrs: AddressSet,
}

/// Mathematical value of a `RouteInfo`.
pub ghost struct RouteInfoV {
    pub operation: MessageType,
    pub index: u16,
    pub flags: RoutingFlags,
    pub metrics: RouteMetrics,
    pub addrs: AddressSetV,
}

impl View for RouteInfo {
    type V = RouteInfoV;

    open spec fn view(&self) -> RouteInfoV {
        RouteInfoV {
            operation: self.operation,
            index: self.index,
            flags: self.flags,
            metrics: self.metrics,
            addrs: self.addrs@,
        }
    }
}

/// What decoding a route message yields: `None` for type bytes outside
/// the modeled operations, otherwise the header fields, the metrics
/// block, and the address slots that follow the fixed header.
pub open spec fn route_info_v(data: Seq<u8>) -> Result<Option<RouteInfoV>, AddressParseError> {
    if data.len() < RT_MSGHDR_LEN {
        Err(AddressParseError::PartialData)
    } else {
        match MessageType::from_byte(data[3]) {
            None => Ok(None),
            Some(op) => match parse_addr_set_v(
                data.subrange(RT_MSGHDR_LEN as int, data.len() as int),
                le32i_at(data, 12),
            ) {
                Err(e) => Err(e),
                Ok((set, _)) => Ok(
                    Some(
                        RouteInfoV {
                            operation: op,
                            index: le16_at(data, 4),
                            flags: RoutingFlags(le32i_at(data, 8)),
                            metrics: metrics_v(
                                data.subrange(
                                    RT_METRICS_OFFSET as int,
                                    (RT_METRICS_OFFSET + RT_METRICS_LEN) as int,
                                ),
                            ),
                            addrs: set,
                        },
                    ),
                ),
            },
        }
    }
}

impl RouteInfo {
    /// Decodes a route message: the fixed header's type, index, flag and
    /// metrics fields, then the address slots announced by the header's
    /// address mask.
    pub fn from_raw(data: &[u8]) -> (r: Result<Option<RouteInfo>, AddressParseError>)
        requires
            data@.len() + 256 <= usize::MAX,
        ensures
            (match r {
                Ok(None) => route_info_v(data@) == Ok::<Option<RouteInfoV>, AddressParseError>(
                    None,
                ),
                Ok(Some(info)) => route_info_v(data@) matches Ok(Some(iv)) && iv == info@,
                Err(e) => route_info_v(data@) == Err::<Option<RouteInfoV>, AddressParseError>(e),
            }),
    {
        proof {
            vstd::slice::axiom_spec_len::<u8>(data);
        }
        if data.len() < RT_MSGHDR_LEN {
            return Err(AddressParseError::PartialData);
        }
        let operation = match MessageType::from(data[3]) {
            None => {
                return Ok(None);
            },
            Some(op) => op,
        };
        let addr_flags = AddressFlags::new(read_le32i(data, 12));
        let metrics_bytes = slice_subrange(
            data,
            RT_METRICS_OFFSET,
            RT_METRICS_OFFSET + RT_METRICS_LEN,
        );
        let tail = slice_subrange(data, RT_MSGHDR_LEN, data.len());
        match AddressSet::from_raw(tail, &addr_flags) {
            Err(e) => Err(e),
            Ok(addrs) => Ok(
                Some(
                    RouteInfo {
                        operation,
                        index: read_le16(data, 4),
                        flags: RoutingFlags::from_raw(read_le32i(data, 8)),
                        metrics: RouteMetrics::from_raw(metrics_bytes),
                        addrs,
                    },
                ),
            ),
        }
    }
}

} // verus!
