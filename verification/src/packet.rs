//! ICMP echo packets over a raw IPv4 transport: building an echo
//! request with its two RFC 1071 checksums, and validating a received
//! echo reply.
//!
//! The combined layout is the twenty-byte IPv4 header immediately
//! followed by the eight-byte ICMP echo header and the payload.  IPv4
//! and ICMP fields travel in network byte order; each checksum field
//! holds the one's complement sum of its own region, so that summing
//! the region as received yields zero.

use vstd::prelude::*;
use vstd::pervasive::VecAdditionalExecFns;
use vstd::slice::slice_subrange;
use vstd::arithmetic::div_mod::{lemma_fundamental_div_mod, lemma_add_mod_noop};
use crate::checksum::{
    checksum_spec, checksum_ok, word_sum, fold_carries, compute_rfc1071,
    lemma_checksum_fill, lemma_word_sum_concat, lemma_word_sum_nonneg,
    lemma_fold_carries_props, lemma_fold_carries_full,
};
use crate::wire::{be16_at, be16_bytes, le16_bytes, push_be16, push_le16, read_be16};

verus! {

/// ICMP message type of an echo request.
pub const ICMP_ECHO_REQUEST: u8 = 8;
/// ICMP message type of an echo reply.
pub const ICMP_ECHO_REPLY: u8 = 0;
/// The fixed per-session echo identifier.
pub const ECHO_IDENT: u16 = 1;

/// The twenty IPv4 header bytes: version and header length, type of
/// service, total length, identification, a do-not-fragment flag, time
/// to live, the ICMP protocol number, the header checksum, the
/// wildcard source address and the destination address.
pub open spec fn ipv4_header_bytes(total_len: u16, ttl: u8, hdr_ck: u16, dst: Seq<u8>) -> Seq<u8> {
    seq![0x45u8, 0u8] + be16_bytes(total_len) + seq![0u8, 0u8] + seq![0x40u8, 0u8]
        + seq![ttl, 1u8] + le16_bytes(hdr_ck) + seq![0u8, 0u8, 0u8, 0u8] + dst
}

/// The eight ICMP echo header bytes: type, code zero, checksum, the
/// session identifier and the sequence number.
pub open spec fn echo_header_bytes(typ: u8, ck: u16, seq_no: u16) -> Seq<u8> {
    seq![typ, 0u8] + le16_bytes(ck) + be16_bytes(ECHO_IDENT) + be16_bytes(seq_no)
}

/// The deterministic payload filler: byte `i` holds `i` modulo 256.
pub open spec fn filler(n: nat) -> Seq<u8> {
    Seq::new(n, |i: int| (i % 256) as u8)
}

/// A complete echo packet: the IPv4 header carrying its own checksum
/// over its twenty bytes, then the ICMP header carrying the checksum of
/// header plus payload, then the filler payload.
pub open spec fn echo_packet_bytes(typ: u8, dst: Seq<u8>, seq_no: u16, ttl: u8, size: nat) -> Seq<u8> {
    let total = (28 + size) as u16;
    let ip0 = ipv4_header_bytes(total, ttl, 0, dst);
    let icmp0 = echo_header_bytes(typ, 0, seq_no) + filler(size);
    ipv4_header_bytes(total, ttl, checksum_spec(ip0), dst)
        + echo_header_bytes(typ, checksum_spec(icmp0), seq_no) + filler(size)
}

/// The total length a received packet declares, read big-endian from
/// its IPv4 header.
pub open spec fn total_len_of(b: Seq<u8>) -> int
    recommends
        b.len() >= 4,
{
    be16_at(b, 2)
}

/// When a received buffer is accepted as an echo reply: long enough for
/// the combined header, type and code naming an echo reply, a declared
/// length that fits the buffer and covers the header, and a packet that
/// sums to zero as received.
pub open spec fn reply_accepted(b: Seq<u8>) -> bool {
    &&& b.len() >= 28
    &&& b[20] == ICMP_ECHO_REPLY
    &&& b[21] == 0
    &&& 28 <= total_len_of(b) <= b.len()
    &&& checksum_ok(b.take(total_len_of(b)))
}

/// What a validated echo reply carries.
#[derive(Clone, Copy, Debug)]
pub struct ReplyInfo {
    /// The size of the entire packet, used to discard it from the
    /// buffer.
    pub size: usize,
    /// The size of the payload in bytes.
    pub payload_size: usize,
    /// The source IPv4 address.
    pub src_addr: [u8; 4],
    /// The sequence number of the reply.
    pub seq: u16,
    /// Time to live of the received datagram.
    pub ttl: u8,
}

/// Builds one echo packet of the given type.
fn build_echo_impl(typ: u8, dst: [u8; 4], seq_no: u16, ttl: u8, size: usize) -> (r: Vec<u8>)
    requires
        28 + size <= 0xffff,
    ensures
        r@ == echo_packet_bytes(typ, dst@, seq_no, ttl, size as nat),
{
    let total: u16 = (28 + size) as u16;
    let ghost ip0 = ipv4_header_bytes(total, ttl, 0, dst@);
    let ghost ih0 = echo_header_bytes(typ, 0, seq_no);
    let mut buf: Vec<u8> = Vec::new();
    buf.push(0x45);
    buf.push(0);
    push_be16(&mut buf, total);
    buf.push(0);
    buf.push(0);
    buf.push(0x40);
    buf.push(0);
    buf.push(ttl);
    buf.push(1);
    push_le16(&mut buf, 0);
    buf.push(0);
    buf.push(0);
    buf.push(0);
    buf.push(0);
    buf.push(dst[0]);
    buf.push(dst[1]);
    buf.push(dst[2]);
    buf.push(dst[3]);
    proof {
        assert(buf@ =~= ip0);
    }
    buf.push(typ);
    buf.push(0);
    push_le16(&mut buf, 0);
    push_be16(&mut buf, ECHO_IDENT);
    push_be16(&mut buf, seq_no);
    proof {
        assert(buf@ =~= ip0 + ih0);
    }
    let mut i: usize = 0;
    while i < size
        invariant
            i <= size,
            buf@.len() == 28 + i,
            buf@ == ip0 + ih0 + filler(i as nat),
        decreases size - i,
    {
        buf.push((i % 256) as u8);
        proof {
            assert(buf@ =~= ip0 + ih0 + filler(i as nat + 1));
        }
        i = i + 1;
    }
    let ipck = compute_rfc1071(slice_subrange(buf.as_slice(), 0, 20));
    proof {
        assert(buf@.subrange(0, 20) =~= ip0);
    }
    buf.set(10, (ipck % 256) as u8);
    buf.set(11, (ipck / 256) as u8);
    let ick = compute_rfc1071(slice_subrange(buf.as_slice(), 20, 28 + size));
    proof {
        assert(buf@.subrange(20, 28 + size as int) =~= ih0 + filler(size as nat));
    }
    buf.set(22, (ick % 256) as u8);
    buf.set(23, (ick / 256) as u8);
    proof {
        assert(buf@ =~= echo_packet_bytes(typ, dst@, seq_no, ttl, size as nat));
    }
    buf
}

/// Builds an echo request to `dst`: type eight, code zero, the fixed
/// session identifier, the given sequence number, a deterministic
/// filler payload of `size` bytes, and both checksums written into
/// their fields.
pub fn build_echo_request(dst: [u8; 4], seq_no: u16, ttl: u8, size: usize) -> (r: Vec<u8>)
    requires
        28 + size <= 0xffff,
    ensures
        r@ == echo_packet_bytes(ICMP_ECHO_REQUEST, dst@, seq_no, ttl, size as nat),
{
    build_echo_impl(ICMP_ECHO_REQUEST, dst, seq_no, ttl, size)
}

/// Builds the echo reply a responsive host would answer the matching
/// request with: the same layout with type zero.
pub fn build_echo_reply(dst: [u8; 4], seq_no: u16, ttl: u8, size: usize) -> (r: Vec<u8>)
    requires
        28 + size <= 0xffff,
    ensures
        r@ == echo_packet_bytes(ICMP_ECHO_REPLY, dst@, seq_no, ttl, size as nat),
{
    build_echo_impl(ICMP_ECHO_REPLY, dst, seq_no, ttl, size)
}

/// Validates a received buffer as an echo reply.
///
/// The buffer is rejected when it is shorter than the combined header,
/// when type or code do not name an echo reply, when the declared
/// length is shorter than the header or longer than the buffer, or when
/// the packet as received does not sum to zero.  Acceptance and every
/// extracted field are pinned by `reply_accepted`.
pub fn parse_reply(buf: &[u8]) -> (r: Option<ReplyInfo>)
    ensures
        r is Some <==> reply_accepted(buf@),
        r matches Some(info) ==> {
            &&& info.size == total_len_of(buf@)
            &&& info.payload_size == total_len_of(buf@) - 28
            &&& info.src_addr@ == buf@.subrange(12, 16)
            &&& info.seq == be16_at(buf@, 26)
            &&& info.ttl == buf@[8]
        },
{
    let n = buf.len();
    if n < 28 {
        return None;
    }
    if buf[20] != ICMP_ECHO_REPLY || buf[21] != 0 {
        return None;
    }
    let total = read_be16(buf, 2);
    if total < 28 || total as usize > n {
        return None;
    }
    let region = slice_subrange(buf, 0, total as usize);
    proof {
        assert(region@ =~= buf@.take(total as int));
    }
    if compute_rfc1071(region) != 0 {
        return None;
    }
    let src_addr = [buf[12], buf[13], buf[14], buf[15]];
    proof {
        assert(src_addr@ =~= buf@.subrange(12, 16));
    }
    Some(ReplyInfo {
        size: total as usize,
        payload_size: total as usize - 28,
        src_addr,
        seq: read_be16(buf, 26),
        ttl: buf[8],
    })
}

/// A built echo packet is 28 bytes of header plus its payload.
pub proof fn lemma_echo_packet_len(typ: u8, dst: Seq<u8>, seq_no: u16, ttl: u8, size: nat)
    requires
        dst.len() == 4,
    ensures
        echo_packet_bytes(typ, dst, seq_no, ttl, size).len() == 28 + size,
{
}

/// Both checksum fields of a built echo packet verify: the whole packet
/// sums to zero as received, whatever its type byte.
pub proof fn lemma_echo_packet_checksum_ok(typ: u8, dst: Seq<u8>, seq_no: u16, ttl: u8, size: nat)
    requires
        dst.len() == 4,
        28 + size <= 0xffff,
    ensures
        checksum_ok(echo_packet_bytes(typ, dst, seq_no, ttl, size)),
{
    let m = 0xffff as int;
    let total = (28 + size) as u16;
    let ip0 = ipv4_header_bytes(total, ttl, 0, dst);
    let ipck = checksum_spec(ip0);
    let ip = ipv4_header_bytes(total, ttl, ipck, dst);
    let icmp0 = echo_header_bytes(typ, 0, seq_no) + filler(size);
    let ick = checksum_spec(icmp0);
    let icmp = echo_header_bytes(typ, ick, seq_no) + filler(size);
    let b = echo_packet_bytes(typ, dst, seq_no, ttl, size);

    // The IPv4 header is its zero-checksum form with the checksum
    // written over bytes 10 and 11, so it verifies on its own.
    let iplo = (ipck as int % 256) as u8;
    let iphi = (ipck as int / 256) as u8;
    assert(ip0[10] == 0 && ip0[11] == 0);
    lemma_checksum_fill(ip0, 10);
    assert(ip =~= ip0.update(10, iplo).update(11, iphi));
    assert(checksum_ok(ip));

    // Likewise the ICMP region with the checksum over bytes 2 and 3.
    let iclo = (ick as int % 256) as u8;
    let ichi = (ick as int / 256) as u8;
    assert(icmp0[2] == 0 && icmp0[3] == 0);
    lemma_checksum_fill(icmp0, 2);
    assert(icmp =~= icmp0.update(2, iclo).update(3, ichi));
    assert(checksum_ok(icmp));

    // Both regions sum to positive multiples of 0xffff; so does their
    // concatenation, which therefore folds to all ones and has a zero
    // checksum.
    assert(b =~= ip + icmp);
    lemma_word_sum_concat(ip, icmp);
    let s1 = word_sum(ip);
    let s2 = word_sum(icmp);
    lemma_word_sum_nonneg(ip);
    lemma_word_sum_nonneg(icmp);
    lemma_fold_carries_props(s1);
    lemma_fold_carries_props(s2);
    assert(fold_carries(s1) == m);
    assert(fold_carries(s2) == m);
    assert(s1 % m == 0 && s2 % m == 0);
    assert(s1 > 0 && s2 > 0);
    lemma_add_mod_noop(s1, s2, m);
    assert((s1 + s2) % m == 0);
    lemma_fold_carries_full(s1 + s2);
    assert(checksum_spec(b) == (m - m) as u16);
}

/// A built echo reply round-trips through validation: the packet is
/// accepted and carries the sequence number, declared length, source
/// address and time to live it was built from.
pub proof fn lemma_reply_round_trip(dst: Seq<u8>, seq_no: u16, ttl: u8, size: nat)
    requires
        dst.len() == 4,
        28 + size <= 0xffff,
    ensures
        ({
            let b = echo_packet_bytes(ICMP_ECHO_REPLY, dst, seq_no, ttl, size);
            &&& reply_accepted(b)
            &&& total_len_of(b) == 28 + size
            &&& be16_at(b, 26) == seq_no
            &&& b[8] == ttl
            &&& b.subrange(16, 20) == dst
        }),
{
    let b = echo_packet_bytes(ICMP_ECHO_REPLY, dst, seq_no, ttl, size);
    let total = (28 + size) as u16;
    lemma_echo_packet_len(ICMP_ECHO_REPLY, dst, seq_no, ttl, size);
    lemma_fundamental_div_mod(total as int, 256);
    assert(total_len_of(b) == total);
    lemma_fundamental_div_mod(seq_no as int, 256);
    assert(be16_at(b, 26) == seq_no);
    assert(b.subrange(16, 20) =~= dst);
    lemma_echo_packet_checksum_ok(ICMP_ECHO_REPLY, dst, seq_no, ttl, size);
    assert(b.take(total_len_of(b)) =~= b);
}

/// A built echo request fails validation only for being a request: its
/// length and checksums check out, but its type byte names an echo
/// request, which a reply parser rejects by design.
pub proof fn lemma_request_is_not_reply(dst: Seq<u8>, seq_no: u16, ttl: u8, size: nat)
    requires
        dst.len() == 4,
        28 + size <= 0xffff,
    ensures
        ({
            let b = echo_packet_bytes(ICMP_ECHO_REQUEST, dst, seq_no, ttl, size);
            &&& !reply_accepted(b)
            &&& b[20] == ICMP_ECHO_REQUEST
            &&& b[21] == 0
            &&& total_len_of(b) == b.len()
            &&& checksum_ok(b)
            &&& be16_at(b, 26) == seq_no
        }),
{
    let b = echo_packet_bytes(ICMP_ECHO_REQUEST, dst, seq_no, ttl, size);
    let total = (28 + size) as u16;
    lemma_echo_packet_len(ICMP_ECHO_REQUEST, dst, seq_no, ttl, size);
    lemma_fundamental_div_mod(total as int, 256);
    assert(total_len_of(b) == total);
    lemma_fundamental_div_mod(seq_no as int, 256);
    lemma_echo_packet_checksum_ok(ICMP_ECHO_REQUEST, dst, seq_no, ttl, size);
}

} // verus!
