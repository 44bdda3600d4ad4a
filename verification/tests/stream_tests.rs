use net_tools::netlink::{Netlink, NetlinkIter, NetlinkStep};
use net_tools::route::RouteNetlink;

fn push_le16(out: &mut Vec<u8>, x: u16) {
    out.push((x % 256) as u8);
    out.push((x / 256) as u8);
}

fn push_le32(out: &mut Vec<u8>, x: u32) {
    out.extend_from_slice(&x.to_le_bytes());
}

fn datagram(typ: u16, flags: u16, seq: u32, payload: &[u8]) -> Vec<u8> {
    let mut b = Vec::new();
    push_le32(&mut b, (16 + payload.len()) as u32);
    push_le16(&mut b, typ);
    push_le16(&mut b, flags);
    push_le32(&mut b, seq);
    push_le32(&mut b, 0);
    b.extend_from_slice(payload);
    b
}

fn link_payload(index: u32, name: &[u8]) -> Vec<u8> {
    let mut b = vec![0u8, 0];
    push_le16(&mut b, 1);
    push_le32(&mut b, index);
    push_le32(&mut b, 0);
    push_le32(&mut b, 0);
    push_le16(&mut b, (4 + name.len() + 1) as u16);
    push_le16(&mut b, 3); // interface name attribute
    b.extend_from_slice(name);
    b.push(0);
    b
}

const MULTI: u16 = 2;
const DONE: u16 = 3;
const NEW_LINK: u16 = 16;

#[test]
fn stream_finishes_once_and_stays_exhausted() {
    let mut st = NetlinkIter::begin(5);
    assert!(!st.finished());
    let record = datagram(NEW_LINK, MULTI, 5, &link_payload(1, b"lo"));
    assert!(matches!(st.offer(&record), NetlinkStep::Record(_)));
    assert!(!st.finished());
    let done = datagram(DONE, MULTI, 5, &[]);
    assert!(matches!(st.offer(&done), NetlinkStep::Exhausted));
    assert!(st.finished());
    // Every further pull reports exhaustion, whatever arrives.
    assert!(matches!(st.offer(&record), NetlinkStep::Exhausted));
    assert!(matches!(st.offer(&[]), NetlinkStep::Exhausted));
    assert!(st.finished());
}

#[test]
fn stream_finishes_on_non_multipart_record() {
    let mut st = NetlinkIter::begin(9);
    let single = datagram(NEW_LINK, 0, 9, &link_payload(4, b"eth1"));
    match st.offer(&single) {
        NetlinkStep::Record(link) => assert_eq!(link.index, 4),
        _ => panic!("a correlated single-part record must be yielded"),
    }
    assert!(st.finished());
    assert!(matches!(st.offer(&single), NetlinkStep::Exhausted));
}

#[test]
fn stream_skips_short_and_foreign_datagrams() {
    let mut st = NetlinkIter::begin(3);
    assert!(matches!(st.offer(&[1, 2, 3]), NetlinkStep::Skipped));
    let foreign = datagram(NEW_LINK, MULTI, 4, &link_payload(1, b"lo"));
    assert!(matches!(st.offer(&foreign), NetlinkStep::Skipped));
    assert!(!st.finished());
}

#[test]
fn stream_fails_fast_on_decode_error() {
    let mut st = NetlinkIter::begin(1);
    let bad = datagram(NEW_LINK, MULTI, 1, &[0; 8]); // payload too short
    assert!(matches!(st.offer(&bad), NetlinkStep::Failed(_)));
    assert!(st.finished());
    let good = datagram(NEW_LINK, MULTI, 1, &link_payload(1, b"lo"));
    assert!(matches!(st.offer(&good), NetlinkStep::Exhausted));
}

#[test]
fn next_seq_values_increase() {
    let mut nl = Netlink::new();
    let mut last = nl.next_seq();
    assert_eq!(last, 0);
    for _ in 0..100 {
        let next = nl.next_seq();
        assert!(next > last);
        assert_eq!(next, last + 1);
        last = next;
    }
}

#[test]
fn two_interface_dump_yields_both_then_exhausts() {
    // A host exposing interface 1 "loopback" and interface 2 "eth0":
    // the dump yields both records in delivery order, then exhausts.
    let mut rt = RouteNetlink::new();
    let q = rt.list_links();
    let seq = u32::from_le_bytes(q.bytes[8..12].try_into().unwrap());
    let mut st = q.stream;
    let first = datagram(NEW_LINK, MULTI, seq, &link_payload(1, b"loopback"));
    let second = datagram(NEW_LINK, MULTI, seq, &link_payload(2, b"eth0"));
    let done = datagram(DONE, MULTI, seq, &[]);

    match st.offer(&first) {
        NetlinkStep::Record(link) => {
            assert_eq!(link.index, 1);
            assert_eq!(link.name.as_deref(), Some(&b"loopback"[..]));
        }
        _ => panic!("first record expected"),
    }
    match st.offer(&second) {
        NetlinkStep::Record(link) => {
            assert_eq!(link.index, 2);
            assert_eq!(link.name.as_deref(), Some(&b"eth0"[..]));
        }
        _ => panic!("second record expected"),
    }
    assert!(!st.finished());
    assert!(matches!(st.offer(&done), NetlinkStep::Exhausted));
    assert!(st.finished());
    assert!(matches!(st.offer(&done), NetlinkStep::Exhausted));
}

#[test]
fn absent_interface_reports_no_record() {
    // No interface has index 9999: the kernel answers the lone request
    // with its termination message, and the stream finishes with no
    // record, which the caller reads as absence, not as an error.
    let mut rt = RouteNetlink::new();
    let q = rt.get_link(9999);
    let seq = u32::from_le_bytes(q.bytes[8..12].try_into().unwrap());
    let mut st = q.stream;
    let done = datagram(DONE, 0, seq, &[]);
    assert!(matches!(st.offer(&done), NetlinkStep::Exhausted));
    assert!(st.finished());
}
