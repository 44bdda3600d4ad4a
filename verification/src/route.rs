//! The route-family link query: building "list all interfaces" and
//! "get one interface" requests and pairing each with the response
//! stream that will consume the kernel's reply.
//!
//! The caller sends the request bytes over its socket and feeds every
//! received datagram to the returned stream.

use vstd::prelude::*;
use crate::netlink::{Netlink, NetlinkIter, NlMsgHdr, nlmsghdr_bytes, encode_nlmsghdr};
use crate::netlink::{NLM_F_REQUEST, NLM_F_DUMP, RTM_GETLINK};
use crate::wire::{le16_bytes, le32_bytes, push_le16, push_le32};

verus! {

/// The byte-exact serialization of the sixteen-byte interface-info
/// header: family, one padding byte, device type, index, device flags
/// and change mask, in host byte order.
pub open spec fn ifinfomsg_bytes(family: u8, dev_type: u16, index: u32, dev_flags: u32, change: u32) -> Seq<u8> {
    seq![family, 0u8] + le16_bytes(dev_type) + le32_bytes(index) + le32_bytes(dev_flags)
        + le32_bytes(change)
}

/// The full "get link" request under sequence number `seq`: a netlink
/// header whose length field counts the whole message, followed by an
/// interface-info header naming the index, zero meaning "all".  A dump
/// request asks for every matching interface.
pub open spec fn link_request_bytes(seq: u32, index: u32, dump: bool) -> Seq<u8> {
    let flags: u16 = if dump {
        NLM_F_REQUEST | NLM_F_DUMP
    } else {
        NLM_F_REQUEST
    };
    nlmsghdr_bytes(NlMsgHdr { len: 32, typ: RTM_GETLINK, flags, seq, pid: 0 })
        + ifinfomsg_bytes(0, 0, index, 0, 0xffff_ffff)
}

/// One issued query: the request to send and the stream that will
/// consume its reply, both under the same fresh correlation id.
pub struct LinkRequest {
    /// The serialized request message.
    pub bytes: Vec<u8>,
    /// The response stream correlated to the request's sequence number.
    pub stream: NetlinkIter,
}

/// A kernel socket set to the route family, with its correlation-id
/// allocator.  The descriptor stays with the caller; this holds the
/// protocol state of the session.
pub struct RouteNetlink {
    sock: Netlink,
}

impl RouteNetlink {
    /// The next correlation id the session will use.
    pub closed spec fn counter(&self) -> u32 {
        self.sock.counter()
    }

    /// Creates the protocol state of a fresh route-family session.
    pub fn new() -> (r: Self)
        ensures
            r.counter() == 0,
    {
        RouteNetlink { sock: Netlink::new() }
    }

    /// Builds a "get link" request under a fresh correlation id.
    fn get_link_impl(&mut self, index: u32, dump: bool) -> (r: LinkRequest)
        ensures
            r.bytes@ == link_request_bytes(old(self).counter(), index, dump),
            r.stream.seq_no() == old(self).counter(),
            !r.stream.is_finished(),
            final(self).counter() == (old(self).counter() + 1) % 0x1_0000_0000,
    {
        let seq = self.sock.next_seq();
        let flags: u16 = if dump {
            NLM_F_REQUEST | NLM_F_DUMP
        } else {
            NLM_F_REQUEST
        };
        proof {
            assert(NLM_F_REQUEST | NLM_F_DUMP == 0x301u16) by (bit_vector);
        }
        let hdr = NlMsgHdr { len: 32, typ: RTM_GETLINK, flags, seq, pid: 0 };
        let mut bytes: Vec<u8> = Vec::new();
        encode_nlmsghdr(&mut bytes, &hdr);
        bytes.push(0);
        bytes.push(0);
        push_le16(&mut bytes, 0);
        push_le32(&mut bytes, index);
        push_le32(&mut bytes, 0);
        push_le32(&mut bytes, 0xffff_ffff);
        proof {
            assert(bytes@ =~= link_request_bytes(old(self).counter(), index, dump));
        }
        LinkRequest { bytes, stream: NetlinkIter::begin(seq) }
    }

    /// Issues a "list all interfaces" dump request: flags ask for a
    /// dump, the index zero means every interface.
    pub fn list_links(&mut self) -> (r: LinkRequest)
        ensures
            r.bytes@ == link_request_bytes(old(self).counter(), 0, true),
            r.stream.seq_no() == old(self).counter(),
            !r.stream.is_finished(),
            final(self).counter() == (old(self).counter() + 1) % 0x1_0000_0000,
    {
        self.get_link_impl(0, true)
    }

    /// Issues a "get one interface" request for the given nonzero
    /// index.  A stream that finishes without a record means the
    /// interface does not exist; that absence is not an error.
    pub fn get_link(&mut self, index: u32) -> (r: LinkRequest)
        requires
            index != 0,
        ensures
            r.bytes@ == link_request_bytes(old(self).counter(), index, false),
            r.stream.seq_no() == old(self).counter(),
            !r.stream.is_finished(),
            final(self).counter() == (old(self).counter() + 1) % 0x1_0000_0000,
    {
        self.get_link_impl(index, false)
    }
}

} // verus!
