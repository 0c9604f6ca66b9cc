//! Interface (link) messages: interface state and membership changes.

use vstd::prelude::*;

use crate::addresses::{parse_addr_set_v, AddressFlags, AddressSet, AddressSetV};
use crate::bytes::{le16_at, le32i_at};
use crate::bytes::{read_le16, read_le32i};
use crate::consts::{
    IFF_ALLMULTI, IFF_BROADCAST, IFF_DEBUG, IFF_LOOPBACK, IFF_NOARP, IFF_NOTRAILERS, IFF_OACTIVE,
    IFF_POINTOPOINT, IFF_PROMISC, IFF_RUNNING, IFF_SIMPLEX, IFF_UP, IF_MSGHDR_LEN, RTM_DELADDR,
    RTM_DELMADDR, RTM_IFINFO, RTM_IFINFO2, RTM_NEWADDR, RTM_NEWMADDR, RTM_NEWMADDR2,
};
use crate::sockaddr::AddressParseError;
use vstd::slice::slice_subrange;

verus! {

broadcast use vstd::slice::group_slice_axioms;

/// The kind of interface-related message.
#[derive(Debug, Clone, Copy, PartialEq, Eq, Structural)]
pub enum MessageType {
    Info,
    NewAddr,
    NewMAddr,
    DelAddr,
    DelMAddr,
    Info2,
    NewMAddr2,
}

impl MessageType {
    /// The kind named by a message's type value, if it is one this
    /// decoder models.
    pub fn from_raw(value: i32) -> (r: Option<Self>)
        ensures
            r == MessageType::from_value(value),
    {
        if value == RTM_IFINFO as i32 {
            Some(MessageType::Info)
        } else if value == RTM_NEWADDR as i32 {
            Some(MessageType::NewAddr)
        } else if value == RTM_NEWMADDR as i32 {
            Some(MessageType::NewMAddr)
        } else if value == RTM_DELADDR as i32 {
            Some(MessageType::DelAddr)
        } else if value == RTM_DELMADDR as i32 {
            Some(MessageType::DelMAddr)
        } else if value == RTM_IFINFO2 as i32 {
            Some(MessageType::Info2)
        } else if value == RTM_NEWMADDR2 as i32 {
            Some(MessageType::NewMAddr2)
        } else {
            None
        }
    }

    /// Which kind each type value names.
    pub open spec fn from_value(value: i32) -> Option<MessageType> {
        if value == RTM_IFINFO as i32 {
            Some(MessageType::Info)
        } else if value == RTM_NEWADDR as i32 {
            Some(MessageType::NewAddr)
        } else if value == RTM_NEWMADDR as i32 {
            Some(MessageType::NewMAddr)
        } else if value == RTM_DELADDR as i32 {
            Some(MessageType::DelAddr)
        } else if value == RTM_DELMADDR as i32 {
            Some(MessageType::DelMAddr)
        } else if value == RTM_IFINFO2 as i32 {
            Some(MessageType::Info2)
        } else if value == RTM_NEWMADDR2 as i32 {
            Some(MessageType::NewMAddr2)
        } else {
            None
        }
    }
}

/// The interface flag word of an interface message.
#[derive(Debug, Clone, Copy)]
pub struct LinkFlags(pub i32);

impl LinkFlags {
    pub fn new(flags: i32) -> (r: Self)
        ensures
            r.0 == flags,
    {
        Self(flags)
    }

    pub fn is_up(&self) -> (r: bool)
        ensures
            r == (self.0 & IFF_UP != 0),
    {
        self.0 & IFF_UP != 0
    }

    pub fn is_broadcast(&self) -> (r: bool)
        ensures
            r == (self.0 & IFF_BROADCAST != 0),
    {
        self.0 & IFF_BROADCAST != 0
    }

    pub fn is_debug(&self) -> (r: bool)
        ensures
            r == (self.0 & IFF_DEBUG != 0),
    {
        self.0 & IFF_DEBUG != 0
    }

    pub fn is_loopback(&self) -> (r: bool)
        ensures
            r == (self.0 & IFF_LOOPBACK != 0),
    {
        self.0 & IFF_LOOPBACK != 0
    }

    pub fn is_pointopoint(&self) -> (r: bool)
        ensures
            r == (self.0 & IFF_POINTOPOINT != 0),
    {
        self.0 & IFF_POINTOPOINT != 0
    }

    pub fn is_notrailers(&self) -> (r: bool)
        ensures
            r == (self.0 & IFF_NOTRAILERS != 0),
    {
        self.0 & IFF_NOTRAILERS != 0
    }

    pub fn is_running(&self) -> (r: bool)
        ensures
            r == (self.0 & IFF_RUNNING != 0),
    {
        self.0 & IFF_RUNNING != 0
    }

    pub fn is_noarp(&self) -> (r: bool)
        ensures
            r == (self.0 & IFF_NOARP != 0),
    {
        self.0 & IFF_NOARP != 0
    }

    pub fn is_promisc(&self) -> (r: bool)
        ensures
            r == (self.0 & IFF_PROMISC != 0),
    {
        self.0 & IFF_PROMISC != 0
    }

    pub fn is_allmulti(&self) -> (r: bool)
        ensures
            r == (self.0 & IFF_ALLMULTI != 0),
    {
        self.0 & IFF_ALLMULTI != 0
    }

    pub fn is_oactive(&self) -> (r: bool)
        ensures
            r == (self.0 & IFF_OACTIVE != 0),
    {
        self.0 & IFF_OACTIVE != 0
    }

    pub fn is_simplex(&self) -> (r: bool)
        ensures
            r == (self.0 & IFF_SIMPLEX != 0),
    {
        self.0 & IFF_SIMPLEX != 0
    }
}

/// A decoded interface message.
#[derive(Debug)]
pub struct LinkInfo {
    pub operation: MessageType,
    pub index: u16,
    pub flags: LinkFlags,
    pub addrs: AddressSet,
}

/// Mathematical value of a `LinkInfo`.
pub ghost struct LinkInfoV {
    pub operation: MessageType,
    pub index: u16,
    pub flags: LinkFlags,
    pub addrs: AddressSetV,
}

impl View for LinkInfo {
    type V = LinkInfoV;

    open spec fn view(&self) -> LinkInfoV {
        LinkInfoV {
            operation: self.operation,
            index: self.index,
            flags: self.flags,
            addrs: self.addrs@,
        }
    }
}

/// What decoding an interface message yields: `None` for type bytes
/// outside the modeled kinds, otherwise the header fields and the
/// address slots that follow the fixed header.
pub open spec fn link_info_v(data: Seq<u8>) -> Result<Option<LinkInfoV>, AddressParseError> {
    if data.len() < IF_MSGHDR_LEN {
        Err(AddressParseError::PartialData)
    } else {
        match MessageType::from_value(data[3] as i32) {
            None => Ok(None),
            Some(op) => match parse_addr_set_v(
                data.subrange(IF_MSGHDR_LEN as int, data.len() as int),
                le32i_at(data, 4),
            ) {
                Err(e) => Err(e),
                Ok((set, _)) => Ok(
                    Some(
                        LinkInfoV {
                            operation: op,
                            index: le16_at(data, 12),
                            flags: LinkFlags(le32i_at(data, 8)),
                            addrs: set,
                        },
                    ),
                ),
            },
        }
    }
}

impl LinkInfo {
    /// Decodes an interface message: the fixed header's type, index and
    /// flag fields, then the address slots announced by the header's
    /// address mask.
    pub fn from_raw(data: &[u8]) -> (r: Result<Option<LinkInfo>, AddressParseError>)
        requires
            data@.len() + 256 <= usize::MAX,
        ensures
            (match r {
                Ok(None) => link_info_v(data@) == Ok::<Option<LinkInfoV>, AddressParseError>(None),
                Ok(Some(info)) => link_info_v(data@) matches Ok(Some(iv)) && iv == info@,
                Err(e) => link_info_v(data@) == Err::<Option<LinkInfoV>, AddressParseError>(e),
            }),
    {
        proof {
            vstd::slice::axiom_spec_len::<u8>(data);
        }
        if data.len() < IF_MSGHDR_LEN {
            return Err(AddressParseError::PartialData);
        }
        let operation = match MessageType::from_raw(data[3] as i32) {
            None => {
                return Ok(None);
            },
            Some(op) => op,
        };
        let addr_flags = AddressFlags::new(read_le32i(data, 4));
        let tail = slice_subrange(data, IF_MSGHDR_LEN, data.len());
        match AddressSet::from_raw(tail, &addr_flags) {
            Err(e) => Err(e),
            Ok(addrs) => Ok(
                Some(
                    LinkInfo {
                        operation,
                        index: read_le16(data, 12),
                        flags: LinkFlags::new(read_le32i(data, 8)),
                        addrs,
                    },
                ),
            ),
        }
    }
}

} // verus!
