//! Classification of a raw route message into a typed event.
//!
//! Every message begins with a two-byte length, a version byte and a
//! type byte; the type byte picks the route, link or address decoder.
//! The slice handed in must be exactly one message: a length field that
//! disagrees with the slice is a protocol-level failure.

use vstd::prelude::*;

use crate::addresses::{addr_info_v, AddressInfo, AddressInfoV, AddressSet, AddressSetV};
use crate::bytes::le16_at;
use crate::bytes::read_le16;
use crate::consts::{
    RTM_ADD, RTM_CHANGE, RTM_DELADDR, RTM_DELETE, RTM_GET, RTM_GET2, RTM_IFINFO, RTM_IFINFO2,
    RTM_NEWADDR, RTM_OLDADD, RTM_OLDDEL,
};
use crate::link::{link_info_v, LinkInfo, LinkInfoV};
use crate::route::{route_info_v, RouteInfo, RouteInfoV};
use crate::sockaddr::AddressParseError;

verus! {

broadcast use vstd::slice::group_slice_axioms;

/// A typed event decoded from one route message.
#[derive(Debug)]
pub enum Header {
    Route(RouteInfo),
    Link(LinkInfo),
    Address(AddressInfo),
}

/// Mathematical value of a `Header`.
pub ghost enum HeaderV {
    Route(RouteInfoV),
    Link(LinkInfoV),
    Address(AddressInfoV),
}

impl View for Header {
    type V = HeaderV;

    open spec fn view(&self) -> HeaderV {
        match self {
            Header::Route(r) => HeaderV::Route(r@),
            Header::Link(l) => HeaderV::Link(l@),
            Header::Address(a) => HeaderV::Address(a@),
        }
    }
}

/// The interface index carried by an event's top-level header; this is
/// the authoritative index for predicate matching.
pub open spec fn index_v(h: HeaderV) -> u16 {
    match h {
        HeaderV::Route(r) => r.index,
        HeaderV::Link(l) => l.index,
        HeaderV::Address(a) => a.index,
    }
}

/// The address slots carried by an event.
pub open spec fn addrs_v(h: HeaderV) -> AddressSetV {
    match h {
        HeaderV::Route(r) => r.addrs,
        HeaderV::Link(l) => l.addrs,
        HeaderV::Address(a) => a.addrs,
    }
}

/// Whether a type byte names one of the route-family message kinds.
pub open spec fn is_route_kind(ty: u8) -> bool {
    ty == RTM_ADD || ty == RTM_DELETE || ty == RTM_CHANGE || ty == RTM_GET || ty == RTM_GET2 || ty
        == RTM_OLDADD || ty == RTM_OLDDEL
}

/// What classifying one complete message yields: `None` for kinds that
/// are dropped, a typed event for route, link and address kinds, and a
/// failure when the message is malformed — in particular
/// `LengthMismatch` exactly when the header's length field disagrees
/// with the number of bytes received.
pub open spec fn header_v(data: Seq<u8>) -> Result<Option<HeaderV>, AddressParseError> {
    if data.len() < 4 {
        Err(AddressParseError::PartialData)
    } else if le16_at(data, 0) != data.len() {
        Err(AddressParseError::LengthMismatch)
    } else if is_route_kind(data[3]) {
        match route_info_v(data) {
            Err(e) => Err(e),
            Ok(None) => Ok(None),
            Ok(Some(r)) => Ok(Some(HeaderV::Route(r))),
        }
    } else if data[3] == RTM_IFINFO || data[3] == RTM_IFINFO2 {
        match link_info_v(data) {
            Err(e) => Err(e),
            Ok(None) => Ok(None),
            Ok(Some(l)) => Ok(Some(HeaderV::Link(l))),
        }
    } else if data[3] == RTM_NEWADDR || data[3] == RTM_DELADDR {
        match addr_info_v(data) {
            Err(e) => Err(e),
            Ok(None) => Ok(None),
            Ok(Some(a)) => Ok(Some(HeaderV::Address(a))),
        }
    } else {
        Ok(None)
    }
}

impl Header {
    /// The interface index carried by the event's top-level header.
    pub fn index(&self) -> (r: u16)
        ensures
            r == index_v(self@),
    {
        match self {
            Self::Route(r) => r.index,
            Self::Link(l) => l.index,
            Self::Address(a) => a.index,
        }
    }

    /// The address slots carried by the event.
    pub fn addrs(&self) -> (r: &AddressSet)
        ensures
            r@ == addrs_v(self@),
    {
        match self {
            Self::Route(r) => &r.addrs,
            Self::Link(l) => &l.addrs,
            Self::Address(a) => &a.addrs,
        }
    }

    /// Classifies one complete message by its type byte and decodes it.
    /// A message decodes (to an event or to a dropped `None`) only when
    /// the decoder consumed exactly `header.length == data.len()` bytes;
    /// a disagreeing length field is rejected as `LengthMismatch`.
    pub fn from_raw(data: &[u8]) -> (r: Result<Option<Header>, AddressParseError>)
        requires
            data@.len() + 256 <= usize::MAX,
        ensures
            (match r {
                Ok(None) => header_v(data@) == Ok::<Option<HeaderV>, AddressParseError>(None),
                Ok(Some(h)) => header_v(data@) matches Ok(Some(hv)) && hv == h@,
                Err(e) => header_v(data@) == Err::<Option<HeaderV>, AddressParseError>(e),
            }),
            r !is Err ==> data@.len() >= 4 && le16_at(data@, 0) == data@.len(),
            data@.len() >= 4 && le16_at(data@, 0) != data@.len() ==> r == Err::<
                Option<Header>,
                _,
            >(AddressParseError::LengthMismatch),
    {
        proof {
            vstd::slice::axiom_spec_len::<u8>(data);
        }
        if data.len() < 4 {
            return Err(AddressParseError::PartialData);
        }
        let msglen = read_le16(data, 0);
        if msglen as usize != data.len() {
            return Err(AddressParseError::LengthMismatch);
        }
        let ty = data[3];
        if ty == RTM_ADD || ty == RTM_DELETE || ty == RTM_CHANGE || ty == RTM_GET || ty == RTM_GET2
            || ty == RTM_OLDADD || ty == RTM_OLDDEL {
            match RouteInfo::from_raw(data) {
                Err(e) => Err(e),
                Ok(None) => Ok(None),
                Ok(Some(r)) => Ok(Some(Header::Route(r))),
            }
        } else if ty == RTM_IFINFO || ty == RTM_IFINFO2 {
            match LinkInfo::from_raw(data) {
                Err(e) => Err(e),
                Ok(None) => Ok(None),
                Ok(Some(l)) => Ok(Some(Header::Link(l))),
            }
        } else if ty == RTM_NEWADDR || ty == RTM_DELADDR {
            match AddressInfo::from_raw(data) {
                Err(e) => Err(e),
                Ok(None) => Ok(None),
                Ok(Some(a)) => Ok(Some(Header::Address(a))),
            }
        } else {
            Ok(None)
        }
    }
}

} // verus!
