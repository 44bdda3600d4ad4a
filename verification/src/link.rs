//! Decoding of one network-interface record: the fixed interface-info
//! header followed by a type-length-value attribute stream.
//!
//! Every field is read bounds-checked from the byte buffer; an attribute
//! that claims a length reaching past the buffer, or past its own
//! prefix, is a decode error rather than undefined behaviour.

use vstd::prelude::*;
use crate::wire::{le16_at, le32_at};
use crate::wire::{read_le16, read_le32};
use vstd::slice::slice_subrange;

verus! {

/// Attribute type: interface hardware address.
pub const IFLA_ADDRESS: u16 = 1;
/// Attribute type: hardware broadcast address.
pub const IFLA_BROADCAST: u16 = 2;
/// Attribute type: interface name.
pub const IFLA_IFNAME: u16 = 3;

/// A decode failure: a truncated header, an attribute whose declared
/// length does not fit the buffer, or a malformed attribute payload.
#[derive(Clone, Copy, Debug, PartialEq, Eq, Structural)]
pub struct DecodeError;

/// One network interface, as decoded from an interface-info payload.
///
/// The index is always present; the other fields are filled only when
/// the corresponding attribute type was seen.
#[derive(Debug)]
pub struct Link {
    /// The device's index.
    pub index: usize,
    /// Interface hardware address.
    pub address: Option<[u8; 6]>,
    /// Hardware broadcast address.
    pub broadcast: Option<[u8; 6]>,
    /// Interface name, without its trailing terminator byte.
    pub name: Option<Vec<u8>>,
}

/// The mathematical shadow of a `Link`.
pub struct LinkView {
    pub index: int,
    pub address: Option<Seq<u8>>,
    pub broadcast: Option<Seq<u8>>,
    pub name: Option<Seq<u8>>,
}

impl View for Link {
    type V = LinkView;

    open spec fn view(&self) -> LinkView {
        LinkView {
            index: self.index as int,
            address: match self.address {
                Some(a) => Some(a@),
                None => None,
            },
            broadcast: match self.broadcast {
                Some(a) => Some(a@),
                None => None,
            },
            name: match self.name {
                Some(ref n) => Some(n@),
                None => None,
            },
        }
    }
}

/// An interface-name payload with its single trailing terminator byte,
/// if any, stripped.
pub open spec fn name_payload(p: Seq<u8>) -> Seq<u8> {
    if p.len() > 0 && p[p.len() - 1] == 0 {
        p.drop_last()
    } else {
        p
    }
}

/// A name is well formed when no zero byte remains once the trailing
/// terminator is stripped.
pub open spec fn valid_name(p: Seq<u8>) -> bool {
    forall|j: int| 0 <= j < name_payload(p).len() ==> name_payload(p)[j] != 0
}

/// What one attribute does to the record under construction: recognized
/// types fill their field, unrecognized types are skipped without error,
/// a recognized payload of the wrong shape is a decode error.
pub open spec fn apply_attr(l: LinkView, typ: int, payload: Seq<u8>) -> Result<LinkView, DecodeError> {
    if typ == IFLA_ADDRESS {
        if payload.len() == 6 {
            Ok(LinkView { address: Some(payload), ..l })
        } else {
            Err(DecodeError)
        }
    } else if typ == IFLA_BROADCAST {
        if payload.len() == 6 {
            Ok(LinkView { broadcast: Some(payload), ..l })
        } else {
            Err(DecodeError)
        }
    } else if typ == IFLA_IFNAME {
        if valid_name(payload) {
            Ok(LinkView { name: Some(name_payload(payload)), ..l })
        } else {
            Err(DecodeError)
        }
    } else {
        Ok(l)
    }
}

/// The attribute walk from offset `i`: each step reads a length-type
/// prefix, applies the attribute, and advances by exactly the declared
/// length; it stops when the remaining bytes cannot hold another prefix.
pub open spec fn walk_attrs(b: Seq<u8>, i: int, l: LinkView) -> Result<LinkView, DecodeError>
    recommends
        0 <= i <= b.len(),
    decreases b.len() - i,
{
    if i < 0 || i + 4 > b.len() {
        Ok(l)
    } else {
        let alen = le16_at(b, i);
        let atyp = le16_at(b, i + 2);
        if alen < 4 || i + alen > b.len() {
            Err(DecodeError)
        } else {
            match apply_attr(l, atyp, b.subrange(i + 4, i + alen)) {
                Ok(l2) => walk_attrs(b, i + alen, l2),
                Err(e) => Err(e),
            }
        }
    }
}

/// The record an interface-info payload decodes to: the index from the
/// fixed header, then the attribute walk from the first attribute.
pub open spec fn decode_link_spec(b: Seq<u8>) -> Result<LinkView, DecodeError> {
    if b.len() < 16 {
        Err(DecodeError)
    } else {
        walk_attrs(
            b,
            16,
            LinkView { index: le32_at(b, 4), address: None, broadcast: None, name: None },
        )
    }
}

/// Copies the six bytes of a hardware-address payload.
fn read_addr6(payload: &[u8]) -> (r: [u8; 6])
    requires
        payload@.len() == 6,
    ensures
        r@ == payload@,
{
    let r = [payload[0], payload[1], payload[2], payload[3], payload[4], payload[5]];
    proof {
        assert(r@ =~= payload@);
    }
    r
}

/// Copies an interface-name payload, stripping its trailing terminator
/// byte; reports a decode error if a zero byte remains inside the name.
fn read_name(payload: &[u8]) -> (r: Result<Vec<u8>, DecodeError>)
    ensures
        r is Ok <==> valid_name(payload@),
        r matches Ok(n) ==> n@ == name_payload(payload@),
{
    let len = payload.len();
    let keep: usize = if len > 0 && payload[len - 1] == 0 {
        len - 1
    } else {
        len
    };
    proof {
        assert(payload@.take(keep as int) =~= name_payload(payload@));
    }
    let mut name: Vec<u8> = Vec::new();
    let mut j: usize = 0;
    while j < keep
        invariant
            j <= keep <= payload@.len(),
            name_payload(payload@) == payload@.take(keep as int),
            name@ == payload@.take(j as int),
            forall|k: int| 0 <= k < j ==> payload@[k] != 0,
        decreases keep - j,
    {
        if payload[j] == 0 {
            assert(name_payload(payload@)[j as int] == 0);
            return Err(DecodeError);
        }
        name.push(payload[j]);
        proof {
            assert(name@ =~= payload@.take(j as int + 1));
        }
        j = j + 1;
    }
    Ok(name)
}

/// Decodes one interface record from an interface-info payload: the
/// fixed 16-byte header gives the index, and the attribute walk fills
/// the optional fields.
pub fn decode_link(b: &[u8]) -> (r: Result<Link, DecodeError>)
    ensures
        r is Ok <==> decode_link_spec(b@) is Ok,
        r matches Ok(l) ==> decode_link_spec(b@) == Ok::<LinkView, DecodeError>(l@),
{
    let n = b.len();
    if n < 16 {
        return Err(DecodeError);
    }
    let index32 = read_le32(b, 4);
    let mut link = Link { index: index32 as usize, address: None, broadcast: None, name: None };
    let mut i: usize = 16;
    while i <= n - 4
        invariant
            16 <= i <= n,
            n == b@.len(),
            decode_link_spec(b@) == walk_attrs(b@, i as int, link@),
        decreases n - i,
    {
        let alen = read_le16(b, i);
        let atyp = read_le16(b, i + 2);
        if alen < 4 || alen as usize > n - i {
            return Err(DecodeError);
        }
        let payload = slice_subrange(b, i + 4, i + alen as usize);
        let ghost before = link@;
        if atyp == IFLA_ADDRESS {
            if payload.len() != 6 {
                return Err(DecodeError);
            }
            link.address = Some(read_addr6(payload));
        } else if atyp == IFLA_BROADCAST {
            if payload.len() != 6 {
                return Err(DecodeError);
            }
            link.broadcast = Some(read_addr6(payload));
        } else if atyp == IFLA_IFNAME {
            match read_name(payload) {
                Ok(nm) => {
                    link.name = Some(nm);
                }
                Err(e) => {
                    return Err(e);
                }
            }
        }
        proof {
            assert(apply_attr(before, atyp as int, payload@) == Ok::<LinkView, DecodeError>(link@));
        }
        i = i + alen as usize;
    }
    proof {
        assert(walk_attrs(b@, i as int, link@) == Ok::<LinkView, DecodeError>(link@));
    }
    Ok(link)
}

} // verus!
