use net_tools::checksum::compute_rfc1071;
use net_tools::packet::{build_echo_reply, build_echo_request, parse_reply};

#[test]
fn reply_round_trip_representative_sizes() {
    for &size in &[0usize, 1, 56, 1472] {
        for &seq in &[0u16, 1, 7, 0x1234, 0xffff] {
            let rep = build_echo_reply([127, 0, 0, 1], seq, 64, size);
            let info = parse_reply(&rep).expect("a built reply must be accepted");
            assert_eq!(info.seq, seq);
            assert_eq!(info.size, 28 + size);
            assert_eq!(info.payload_size, size);
            assert_eq!(info.ttl, 64);
        }
    }
}

#[test]
fn request_layout_is_exact() {
    let req = build_echo_request([192, 168, 1, 9], 0x0203, 115, 4);
    assert_eq!(req.len(), 32);
    assert_eq!(req[0], 0x45); // version 4, header length 5 words
    assert_eq!(req[1], 0); // type of service
    assert_eq!(&req[2..4], &[0, 32]); // total length, big-endian
    assert_eq!(&req[4..6], &[0, 0]); // identification
    assert_eq!(&req[6..8], &[0x40, 0]); // do not fragment
    assert_eq!(req[8], 115); // time to live
    assert_eq!(req[9], 1); // protocol: ICMP
    assert_eq!(&req[12..16], &[0, 0, 0, 0]); // source: any
    assert_eq!(&req[16..20], &[192, 168, 1, 9]); // destination
    assert_eq!(req[20], 8); // echo request
    assert_eq!(req[21], 0); // code
    assert_eq!(&req[24..26], &[0, 1]); // identifier, big-endian
    assert_eq!(&req[26..28], &[0x02, 0x03]); // sequence, big-endian
    assert_eq!(&req[28..32], &[0, 1, 2, 3]); // deterministic filler
}

#[test]
fn request_checksums_verify() {
    let req = build_echo_request([10, 0, 0, 2], 99, 64, 13);
    // The IPv4 header checksum covers its twenty bytes; the ICMP
    // checksum covers the rest; each region sums to zero as received.
    assert_eq!(compute_rfc1071(&req[..20]), 0);
    assert_eq!(compute_rfc1071(&req[20..]), 0);
    assert_eq!(compute_rfc1071(&req), 0);
}

#[test]
fn request_is_rejected_for_its_type_byte_alone() {
    // A request carries type eight where a reply carries zero; the
    // reply parser rejects it even though its checksums verify.
    let req = build_echo_request([127, 0, 0, 1], 5, 64, 56);
    assert!(parse_reply(&req).is_none());
    let mut as_reply = req.clone();
    as_reply[20] = 0;
    // Rewriting the type byte alone breaks the ICMP checksum.
    assert!(parse_reply(&as_reply).is_none());
}

#[test]
fn reply_shorter_than_header_is_rejected() {
    let rep = build_echo_reply([127, 0, 0, 1], 1, 64, 0);
    assert!(parse_reply(&rep[..27]).is_none());
    assert!(parse_reply(&[]).is_none());
}

#[test]
fn reply_with_bad_code_is_rejected() {
    let mut rep = build_echo_reply([127, 0, 0, 1], 1, 64, 8);
    rep[21] = 1;
    assert!(parse_reply(&rep).is_none());
}

#[test]
fn reply_with_corrupted_payload_is_rejected() {
    let mut rep = build_echo_reply([127, 0, 0, 1], 1, 64, 8);
    rep[30] = rep[30].wrapping_add(1);
    assert!(parse_reply(&rep).is_none());
}

#[test]
fn reply_with_overlong_declared_length_is_rejected() {
    let mut rep = build_echo_reply([127, 0, 0, 1], 1, 64, 8);
    rep[2] = 0xff; // declared length far beyond the buffer
    assert!(parse_reply(&rep).is_none());
}

#[test]
fn reply_source_address_is_extracted() {
    // Bytes 12..16 carry the sender of a received packet.
    let mut rep = build_echo_reply([127, 0, 0, 1], 1, 64, 0);
    rep[12..16].copy_from_slice(&[10, 1, 2, 3]);
    // Repair the IPv4 header checksum after editing the source field.
    rep[10] = 0;
    rep[11] = 0;
    let c = compute_rfc1071(&rep[..20]);
    rep[10] = (c % 256) as u8;
    rep[11] = (c / 256) as u8;
    let info = parse_reply(&rep).expect("repaired reply must be accepted");
    assert_eq!(info.src_addr, [10, 1, 2, 3]);
}

#[test]
fn reply_accepts_trailing_bytes_beyond_declared_length() {
    // The receive buffer may be longer than the packet; the declared
    // length bounds what is checked and reported.
    let mut rep = build_echo_reply([127, 0, 0, 1], 3, 64, 4);
    let packet_len = rep.len();
    rep.extend_from_slice(&[0xaa, 0xbb, 0xcc]);
    let info = parse_reply(&rep).expect("padding after the packet is ignored");
    assert_eq!(info.size, packet_len);
    assert_eq!(info.seq, 3);
}
