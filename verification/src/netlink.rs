//! The netlink message header, the correlation-id allocator, and the
//! response correlator that matches kernel datagrams to an outstanding
//! request and recognizes multipart termination.
//!
//! The socket itself lives with the caller: the functions here decide,
//! on each received datagram, what the protocol state machine does.

use vstd::prelude::*;
use vstd::arithmetic::div_mod::{lemma_fundamental_div_mod, lemma_small_mod};
use crate::link::{decode_link, decode_link_spec, Link, DecodeError};
use crate::wire::{le16_at, le32_at, le16_bytes, le32_bytes};
use crate::wire::{read_le16, read_le32, push_le16, push_le32};
use vstd::slice::slice_subrange;

verus! {

/// Message type: end of a multipart dump.
pub const NLMSG_DONE: u16 = 3;
/// Flag bit: more multipart messages follow.
pub const NLM_F_MULTI: u16 = 2;
/// Flag bit: this message is a request.
pub const NLM_F_REQUEST: u16 = 1;
/// Flag bits: dump everything that matches.
pub const NLM_F_DUMP: u16 = 0x300;
/// Message type: get link information.
pub const RTM_GETLINK: u16 = 18;

/// The fixed netlink message header: length, type, flags, sequence
/// number and sender port id, each in host byte order.
#[derive(Clone, Copy, Debug, PartialEq, Eq, Structural)]
pub struct NlMsgHdr {
    /// Length of the message, header included.
    pub len: u32,
    /// Type of the message content.
    pub typ: u16,
    /// Additional flags.
    pub flags: u16,
    /// Sequence number correlating replies to a request.
    pub seq: u32,
    /// Sender port id; zero names the kernel.
    pub pid: u32,
}

/// The byte-exact serialization of a netlink message header.
pub open spec fn nlmsghdr_bytes(h: NlMsgHdr) -> Seq<u8> {
    le32_bytes(h.len) + le16_bytes(h.typ) + le16_bytes(h.flags) + le32_bytes(h.seq)
        + le32_bytes(h.pid)
}

/// The header a buffer's first sixteen bytes decode to.
pub open spec fn nlmsghdr_of(b: Seq<u8>) -> NlMsgHdr
    recommends
        b.len() >= 16,
{
    NlMsgHdr {
        len: le32_at(b, 0) as u32,
        typ: le16_at(b, 4) as u16,
        flags: le16_at(b, 6) as u16,
        seq: le32_at(b, 8) as u32,
        pid: le32_at(b, 12) as u32,
    }
}

/// Whether the multipart flag is set: bit 1 of the flags field.
pub open spec fn is_multipart(flags: u16) -> bool {
    (flags as int / 2) % 2 == 1
}

/// Appends the sixteen header bytes.
pub fn encode_nlmsghdr(out: &mut Vec<u8>, h: &NlMsgHdr)
    ensures
        final(out)@ == old(out)@ + nlmsghdr_bytes(*h),
{
    push_le32(out, h.len);
    push_le16(out, h.typ);
    push_le16(out, h.flags);
    push_le32(out, h.seq);
    push_le32(out, h.pid);
    proof {
        assert(out@ =~= old(out)@ + nlmsghdr_bytes(*h));
    }
}

/// Decodes the header from a buffer of at least sixteen bytes.
pub fn decode_nlmsghdr(b: &[u8]) -> (r: Option<NlMsgHdr>)
    ensures
        r is Some <==> b@.len() >= 16,
        r matches Some(h) ==> h == nlmsghdr_of(b@),
{
    if b.len() < 16 {
        return None;
    }
    Some(NlMsgHdr {
        len: read_le32(b, 0),
        typ: read_le16(b, 4),
        flags: read_le16(b, 6),
        seq: read_le32(b, 8),
        pid: read_le32(b, 12),
    })
}

/// The correlation-id allocator of one kernel socket.  The descriptor
/// itself stays with the caller; this records the protocol state the
/// contracts speak of: the next sequence number to hand out.
pub struct Netlink {
    next_seq: u32,
}

/// The ids handed out by `n` successive allocations that start at
/// `start`: each is one more than the last, modulo 2^32.
pub open spec fn seq_ids(start: u32, n: nat) -> Seq<u32> {
    Seq::new(n, |i: int| ((start + i) % 0x1_0000_0000) as u32)
}

impl Netlink {
    /// The next sequence number this socket will hand out.
    pub closed spec fn counter(&self) -> u32 {
        self.next_seq
    }

    /// Creates the protocol state of a fresh socket: ids start at zero.
    pub fn new() -> (r: Self)
        ensures
            r.counter() == 0,
    {
        Netlink { next_seq: 0 }
    }

    /// Returns the next sequence number and advances the allocator,
    /// wrapping on overflow.
    pub fn next_seq(&mut self) -> (r: u32)
        ensures
            r == old(self).counter(),
            final(self).counter() == (old(self).counter() + 1) % 0x1_0000_0000,
    {
        let r = self.next_seq;
        self.next_seq = if r == 0xffff_ffff {
            0
        } else {
            r + 1
        };
        proof {
            if r < 0xffff_ffff {
                lemma_small_mod((r + 1) as nat, 0x1_0000_0000);
            } else {
                vstd::arithmetic::div_mod::lemma_mod_self_0(0x1_0000_0000);
            }
        }
        r
    }
}

/// Successive allocations hand out strictly fresh correlation ids: among
/// up to 2^32 ids drawn in a row, no two are equal, each being one more
/// than the last modulo 2^32.
pub proof fn lemma_seq_ids_distinct(start: u32, n: nat, i: int, j: int)
    requires
        n <= 0x1_0000_0000,
        0 <= i < j < n,
    ensures
        seq_ids(start, n)[i] != seq_ids(start, n)[j],
{
    let m = 0x1_0000_0000 as int;
    let a = (start + i) % m;
    let b = (start + j) % m;
    if a == b {
        lemma_fundamental_div_mod(start + i, m);
        lemma_fundamental_div_mod(start + j, m);
        let qi = (start + i) / m;
        let qj = (start + j) / m;
        assert(j - i == m * qj - m * qi);
        assert(j - i == m * (qj - qi)) by (nonlinear_arith)
            requires
                j - i == m * qj - m * qi,
        ;
        assert(0 < j - i < m);
        assert(m * (qj - qi) >= m || m * (qj - qi) <= 0) by (nonlinear_arith)
            requires
                m > 0,
        ;
        assert(false);
    }
}

/// What one datagram does to a response stream.
pub enum NetlinkStep {
    /// The datagram was not part of this stream: too short for a header,
    /// or carrying another request's sequence number.
    Skipped,
    /// One decoded record of this stream.
    Record(Link),
    /// The stream is over; this pull carries no record.
    Exhausted,
    /// A correlated message failed to decode; the whole stream fails.
    Failed(DecodeError),
}

/// The lazy response stream of one request: ACTIVE until its terminal
/// message, FINISHED from then on.
pub struct NetlinkIter {
    seq: u32,
    finished: bool,
}

impl NetlinkIter {
    /// The correlation id this stream consumes.
    pub closed spec fn seq_no(&self) -> u32 {
        self.seq
    }

    /// Whether the stream has reached its FINISHED state.
    pub closed spec fn is_finished(&self) -> bool {
        self.finished
    }

    /// Creates the stream for a request just sent under sequence
    /// number `seq`.
    pub fn begin(seq: u32) -> (r: Self)
        ensures
            r.seq_no() == seq,
            !r.is_finished(),
    {
        NetlinkIter { seq, finished: false }
    }

    /// Whether the stream is finished; a finished stream needs no
    /// further receive.
    pub fn finished(&self) -> (r: bool)
        ensures
            r == self.is_finished(),
    {
        self.finished
    }

    /// Consumes one received datagram.
    ///
    /// A datagram too short for a header, or correlated to another
    /// sequence number, is skipped.  A dump-termination message finishes
    /// the stream and yields no record.  Any other correlated message
    /// decodes to a record, failing the whole stream on a decode error;
    /// a correlated message without the multipart flag is the last.
    ///
    /// The stream finishes at most once: once finished it stays
    /// finished, reports exhaustion for every further datagram, and
    /// never yields another record.
    pub fn offer(&mut self, datagram: &[u8]) -> (r: NetlinkStep)
        ensures
            final(self).seq_no() == old(self).seq_no(),
            old(self).is_finished() ==> r is Exhausted && final(self).is_finished(),
            !old(self).is_finished() ==> ({
                let b = datagram@;
                if b.len() < 16 || nlmsghdr_of(b).seq != old(self).seq_no() {
                    r is Skipped && !final(self).is_finished()
                } else if nlmsghdr_of(b).typ == NLMSG_DONE {
                    r is Exhausted && final(self).is_finished()
                } else {
                    match decode_link_spec(b.skip(16)) {
                        Ok(v) => {
                            &&& r matches NetlinkStep::Record(rec) && rec@ == v
                            &&& final(self).is_finished() <==> !is_multipart(nlmsghdr_of(b).flags)
                        },
                        Err(e) => r == NetlinkStep::Failed(e) && final(self).is_finished(),
                    }
                }
            }),
    {
        if self.finished {
            return NetlinkStep::Exhausted;
        }
        let hdr = match decode_nlmsghdr(datagram) {
            Some(h) => h,
            None => {
                return NetlinkStep::Skipped;
            }
        };
        if hdr.seq != self.seq {
            return NetlinkStep::Skipped;
        }
        if hdr.typ == NLMSG_DONE {
            self.finished = true;
            return NetlinkStep::Exhausted;
        }
        let payload = slice_subrange(datagram, 16, datagram.len());
        proof {
            assert(payload@ =~= datagram@.skip(16));
        }
        match decode_link(payload) {
            Ok(link) => {
                if hdr.flags / 2 % 2 == 0 {
                    self.finished = true;
                }
                NetlinkStep::Record(link)
            }
            Err(e) => {
                self.finished = true;
                NetlinkStep::Failed(e)
            }
        }
    }
}

} // verus!
