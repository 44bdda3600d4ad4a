use net_tools::link::decode_link;
use net_tools::netlink::{decode_nlmsghdr, encode_nlmsghdr, NlMsgHdr};
use net_tools::route::RouteNetlink;

fn push_le16(out: &mut Vec<u8>, x: u16) {
    out.push((x % 256) as u8);
    out.push((x / 256) as u8);
}

fn push_le32(out: &mut Vec<u8>, x: u32) {
    out.extend_from_slice(&x.to_le_bytes());
}

fn ifinfomsg(index: u32) -> Vec<u8> {
    let mut b = vec![0u8, 0]; // family, padding
    push_le16(&mut b, 1); // device type
    push_le32(&mut b, index);
    push_le32(&mut b, 0); // device flags
    push_le32(&mut b, 0); // change mask
    b
}

fn attr(typ: u16, payload: &[u8]) -> Vec<u8> {
    let mut b = Vec::new();
    push_le16(&mut b, (4 + payload.len()) as u16);
    push_le16(&mut b, typ);
    b.extend_from_slice(payload);
    b
}

#[test]
fn decode_header_round_trip() {
    let h = NlMsgHdr { len: 32, typ: 18, flags: 0x301, seq: 0xdeadbeef, pid: 0 };
    let mut bytes = Vec::new();
    encode_nlmsghdr(&mut bytes, &h);
    assert_eq!(bytes.len(), 16);
    let back = decode_nlmsghdr(&bytes).expect("sixteen bytes decode");
    assert_eq!(back, h);
}

#[test]
fn decode_header_too_short() {
    assert!(decode_nlmsghdr(&[0; 15]).is_none());
}

#[test]
fn decode_link_index_only() {
    let link = decode_link(&ifinfomsg(7)).expect("bare header decodes");
    assert_eq!(link.index, 7);
    assert!(link.address.is_none());
    assert!(link.broadcast.is_none());
    assert!(link.name.is_none());
}

#[test]
fn decode_link_with_attributes() {
    let mut b = ifinfomsg(2);
    b.extend_from_slice(&attr(1, &[0xde, 0xad, 0xbe, 0xef, 0x00, 0x01]));
    b.extend_from_slice(&attr(2, &[0xff; 6]));
    b.extend_from_slice(&attr(3, b"eth0\0"));
    let link = decode_link(&b).expect("well-formed record decodes");
    assert_eq!(link.index, 2);
    assert_eq!(link.address, Some([0xde, 0xad, 0xbe, 0xef, 0x00, 0x01]));
    assert_eq!(link.broadcast, Some([0xff; 6]));
    assert_eq!(link.name.as_deref(), Some(&b"eth0"[..]));
}

#[test]
fn decode_link_name_without_terminator() {
    let mut b = ifinfomsg(3);
    b.extend_from_slice(&attr(3, b"lo"));
    let link = decode_link(&b).expect("unterminated name decodes");
    assert_eq!(link.name.as_deref(), Some(&b"lo"[..]));
}

#[test]
fn decode_link_skips_unrecognized_attributes() {
    let mut b = ifinfomsg(4);
    b.extend_from_slice(&attr(4, &[0xdc, 0x05, 0, 0])); // device MTU
    b.extend_from_slice(&attr(3, b"wlan0\0"));
    b.extend_from_slice(&attr(700, &[1, 2, 3]));
    let link = decode_link(&b).expect("unknown attribute types are skipped");
    assert_eq!(link.name.as_deref(), Some(&b"wlan0"[..]));
    assert!(link.address.is_none());
}

#[test]
fn decode_link_header_too_short() {
    assert!(decode_link(&[0; 15]).is_err());
}

#[test]
fn decode_link_attribute_length_below_prefix() {
    let mut b = ifinfomsg(1);
    b.extend_from_slice(&attr(1, &[0; 6]));
    b[16] = 3; // claim a length smaller than the prefix itself
    assert!(decode_link(&b).is_err());
}

#[test]
fn decode_link_attribute_overruns_buffer() {
    let mut b = ifinfomsg(1);
    b.extend_from_slice(&attr(1, &[0; 6]));
    b[16] = 200; // claim a length past the end of the buffer
    assert!(decode_link(&b).is_err());
}

#[test]
fn decode_link_hardware_address_wrong_width() {
    let mut b = ifinfomsg(1);
    b.extend_from_slice(&attr(1, &[1, 2, 3, 4]));
    assert!(decode_link(&b).is_err());
}

#[test]
fn decode_link_name_with_interior_terminator() {
    let mut b = ifinfomsg(1);
    b.extend_from_slice(&attr(3, b"et\0h0\0"));
    assert!(decode_link(&b).is_err());
}

#[test]
fn decode_link_trailing_bytes_below_prefix_are_ignored() {
    let mut b = ifinfomsg(9);
    b.extend_from_slice(&[5, 0, 1]); // three stray bytes: no full prefix
    let link = decode_link(&b).expect("a partial trailing prefix ends the walk");
    assert_eq!(link.index, 9);
}

#[test]
fn list_links_request_layout() {
    let mut rt = RouteNetlink::new();
    let q = rt.list_links();
    let b = &q.bytes;
    assert_eq!(b.len(), 32);
    assert_eq!(&b[0..4], &[32, 0, 0, 0]); // message length, host order
    assert_eq!(&b[4..6], &[18, 0]); // get-link
    assert_eq!(&b[6..8], &[0x01, 0x03]); // request | dump
    assert_eq!(&b[8..12], &[0, 0, 0, 0]); // first sequence number
    assert_eq!(&b[12..16], &[0, 0, 0, 0]); // port id: kernel
    assert_eq!(b[16], 0); // family: unspecified
    assert_eq!(&b[20..24], &[0, 0, 0, 0]); // index zero: all interfaces
    assert_eq!(&b[28..32], &[0xff, 0xff, 0xff, 0xff]); // change mask
}

#[test]
fn get_link_request_names_index_without_dump() {
    let mut rt = RouteNetlink::new();
    let first = rt.list_links();
    let q = rt.get_link(9999);
    assert_eq!(&first.bytes[8..12], &[0, 0, 0, 0]);
    assert_eq!(&q.bytes[6..8], &[0x01, 0x00]); // request only
    assert_eq!(&q.bytes[8..12], &[1, 0, 0, 0]); // second sequence number
    assert_eq!(&q.bytes[20..24], &9999u32.to_le_bytes());
}
