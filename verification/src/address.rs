//! Peer addresses: IPv4, IPv6 and onion services, each with a port.
//!
//! An address holds plain numbers only. The body of an IPv6 address is its
//! eight 16-bit groups as they are written in text, so that the group
//! `0x2001` goes on the wire as the bytes `20 01`.

use vstd::prelude::*;
use crate::error::Error;
use crate::primitives::{be_u16, get_array, get_u16_le, le_u16, put_bytes, put_u16_le, swap16, swap16_of, tail, u16_be, lemma_swap16, lemma_u16_roundtrip};
use crate::wire::Wire;

verus! {

/// Where a peer can be reached.
#[derive(Clone, PartialEq, Eq, PartialOrd, Ord, Debug, Hash)]
pub enum Address {
    /// Four octets in network order, and the port.
    Ipv4([u8; 4], u16),
    /// Eight groups of 16 bits, and the port.
    Ipv6([u16; 8], u16),
    /// The 56 bytes of a version 3 onion address, and the port. The bytes
    /// are carried as they are; nothing checks that they name a service.
    OnionV3([u8; 56], u16),
}

/// An address as contracts see it: bodies as sequences.
pub enum AddressModel {
    Ipv4(Seq<u8>, u16),
    Ipv6(Seq<u16>, u16),
    OnionV3(Seq<u8>, u16),
}

impl View for Address {
    type V = AddressModel;

    open spec fn view(&self) -> AddressModel {
        match *self {
            Address::Ipv4(ip, port) => AddressModel::Ipv4(ip@, port),
            Address::Ipv6(groups, port) => AddressModel::Ipv6(groups@, port),
            Address::OnionV3(body, port) => AddressModel::OnionV3(body@, port),
        }
    }
}

/// The tag byte of an IPv4 address.
pub const TAG_IPV4: u8 = 0;

/// The tag byte of an IPv6 address.
pub const TAG_IPV6: u8 = 1;

/// The tag byte of an onion address.
pub const TAG_ONION_V3: u8 = 2;

/// The groups of an IPv6 address as bytes: each group most significant
/// byte first.
pub open spec fn hextets_wire(groups: Seq<u16>) -> Seq<u8> {
    Seq::new(
        2 * groups.len(),
        |i: int|
            if i % 2 == 0 {
                (groups[i / 2] / 256) as u8
            } else {
                (groups[i / 2] % 256) as u8
            },
    )
}

/// The eight groups that 16 bytes hold, each most significant byte first.
pub open spec fn hextets_of(body: Seq<u8>) -> Seq<u16> {
    Seq::new(8, |i: int| be_u16(body.subrange(2 * i, 2 * i + 2)))
}

/// Each group with its two bytes in the other order: turns groups that were
/// read least significant byte first into the groups that the bytes spell
/// in network order.
pub fn ipv6_to_be(addr: [u16; 8]) -> (r: [u16; 8])
    ensures
        forall|i: int| 0 <= i < 8 ==> r@[i] == swap16(#[trigger] addr@[i]),
{
    [
        swap16_of(addr[0]),
        swap16_of(addr[1]),
        swap16_of(addr[2]),
        swap16_of(addr[3]),
        swap16_of(addr[4]),
        swap16_of(addr[5]),
        swap16_of(addr[6]),
        swap16_of(addr[7]),
    ]
}

/// Reads eight 16-bit words, each least significant byte first.
fn get_words_le(buf: &[u8]) -> (r: Result<([u16; 8], usize), Error>)
    ensures
        r matches Ok((w, n)) ==> buf@.len() >= 16 && n == 16 && forall|i: int|
            0 <= i < 8 ==> #[trigger] w@[i] == le_u16(buf@.subrange(2 * i, 2 * i + 2)),
        r matches Err(e) ==> buf@.len() < 16 && e == Error::TruncatedInput,
{
    if buf.len() < 16 {
        return Err(Error::TruncatedInput);
    }
    let mut w = [0u16; 8];
    let mut i: usize = 0;
    while i < 8
        invariant
            i <= 8,
            buf@.len() >= 16,
            forall|j: int| 0 <= j < i ==> #[trigger] w@[j] == le_u16(buf@.subrange(2 * j, 2 * j + 2)),
        decreases 8 - i,
    {
        let word = buf[2 * i] as u16 + 0x100 * (buf[2 * i + 1] as u16);
        w[i] = word;
        i += 1;
    }
    Ok((w, 16))
}

/// Appends the groups of an IPv6 address in network order.
fn put_hextets(out: &mut Vec<u8>, groups: &[u16; 8])
    ensures
        final(out)@ == old(out)@ + hextets_wire(groups@),
{
    let ghost start = out@;
    let mut i: usize = 0;
    assert(hextets_wire(groups@.take(0)) =~= Seq::<u8>::empty());
    while i < 8
        invariant
            i <= 8,
            out@ == start + hextets_wire(groups@.take(i as int)),
        decreases 8 - i,
    {
        proof {
            lemma_swap16(groups@[i as int], Seq::empty());
            assert(hextets_wire(groups@.take(i + 1)) =~= hextets_wire(groups@.take(i as int))
                + u16_be(groups@[i as int]));
        }
        put_u16_le(out, swap16_of(groups[i]));
        i += 1;
    }
    assert(groups@.take(8) =~= groups@);
}

impl Wire for Address {
    /// Each body has the length of its kind.
    open spec fn canonical(m: AddressModel) -> bool {
        match m {
            AddressModel::Ipv4(ip, _) => ip.len() == 4,
            AddressModel::Ipv6(groups, _) => groups.len() == 8,
            AddressModel::OnionV3(body, _) => body.len() == 56,
        }
    }

    open spec fn encodable(m: AddressModel) -> bool {
        true
    }

    /// The tag, the body, and the port most significant byte first.
    open spec fn wire(m: AddressModel) -> Seq<u8> {
        match m {
            AddressModel::Ipv4(ip, port) => seq![TAG_IPV4] + ip + u16_be(port),
            AddressModel::Ipv6(groups, port) => seq![TAG_IPV6] + hextets_wire(groups) + u16_be(
                port,
            ),
            AddressModel::OnionV3(body, port) => seq![TAG_ONION_V3] + body + u16_be(port),
        }
    }

    /// An unknown tag is refused whatever follows it; a known one asks for
    /// 6, 18 or 58 more bytes.
    open spec fn parse(s: Seq<u8>) -> Result<(AddressModel, nat), Error> {
        if s.len() < 1 {
            Err(Error::TruncatedInput)
        } else if s[0] == TAG_IPV4 {
            parse_body(s, 4, AddressModel::Ipv4(s.subrange(1, 5), be_u16(s.subrange(5, 7))))
        } else if s[0] == TAG_IPV6 {
            parse_body(
                s,
                16,
                AddressModel::Ipv6(hextets_of(s.subrange(1, 17)), be_u16(s.subrange(17, 19))),
            )
        } else if s[0] == TAG_ONION_V3 {
            parse_body(s, 56, AddressModel::OnionV3(s.subrange(1, 57), be_u16(s.subrange(57, 59))))
        } else {
            Err(Error::InvalidDiscriminant)
        }
    }

    fn consensus_encode(&self, out: &mut Vec<u8>) {
        match self {
            Address::Ipv4(ip, port) => {
                out.push(TAG_IPV4);
                put_bytes(out, ip.as_slice());
                proof {
                    lemma_swap16(*port, Seq::empty());
                }
                put_u16_le(out, swap16_of(*port));
            },
            Address::Ipv6(groups, port) => {
                out.push(TAG_IPV6);
                put_hextets(out, groups);
                proof {
                    lemma_swap16(*port, Seq::empty());
                }
                put_u16_le(out, swap16_of(*port));
            },
            Address::OnionV3(body, port) => {
                out.push(TAG_ONION_V3);
                put_bytes(out, body.as_slice());
                proof {
                    lemma_swap16(*port, Seq::empty());
                }
                put_u16_le(out, swap16_of(*port));
            },
        }
    }

    fn consensus_decode(buf: &[u8]) -> (r: Result<(Address, usize), Error>) {
        if buf.len() < 1 {
            return Err(Error::TruncatedInput);
        }
        let tag = buf[0];
        let rest = tail(buf, 1);
        if tag == TAG_IPV4 {
            let (ip, n) = get_array::<4>(rest)?;
            let (p, _) = get_u16_le(tail(rest, n))?;
            proof {
                lemma_swap16(0, buf@.subrange(5, 7));
                assert(ip@ =~= buf@.subrange(1, 5));
                assert(le_u16(rest@.skip(4)) == le_u16(buf@.subrange(5, 7)));
            }
            Ok((Address::Ipv4(ip, swap16_of(p)), 7))
        } else if tag == TAG_IPV6 {
            let (words, n) = get_words_le(rest)?;
            let groups = ipv6_to_be(words);
            let (p, _) = get_u16_le(tail(rest, n))?;
            proof {
                lemma_swap16(0, buf@.subrange(17, 19));
                assert(le_u16(rest@.skip(16)) == le_u16(buf@.subrange(17, 19)));
                let body = buf@.subrange(1, 17);
                assert forall|i: int| 0 <= i < 8 implies groups@[i] == hextets_of(body)[i] by {
                    lemma_swap16(0, body.subrange(2 * i, 2 * i + 2));
                    assert(rest@.subrange(2 * i, 2 * i + 2) =~= body.subrange(2 * i, 2 * i + 2));
                    assert(groups@[i] == swap16(words@[i]));
                }
                assert(groups@ =~= hextets_of(body));
            }
            Ok((Address::Ipv6(groups, swap16_of(p)), 19))
        } else if tag == TAG_ONION_V3 {
            let (body, n) = get_array::<56>(rest)?;
            let (p, _) = get_u16_le(tail(rest, n))?;
            proof {
                lemma_swap16(0, buf@.subrange(57, 59));
                assert(body@ =~= buf@.subrange(1, 57));
                assert(le_u16(rest@.skip(56)) == le_u16(buf@.subrange(57, 59)));
            }
            Ok((Address::OnionV3(body, swap16_of(p)), 59))
        } else {
            Err(Error::InvalidDiscriminant)
        }
    }

    proof fn lemma_parse_sound(s: Seq<u8>) {
    }

    proof fn lemma_roundtrip(m: AddressModel, rest: Seq<u8>) {
        let s = Self::wire(m) + rest;
        match m {
            AddressModel::Ipv4(ip, port) => {
                lemma_u16_roundtrip(port);
                assert(s.subrange(1, 5) =~= ip);
                assert(s.subrange(5, 7) =~= u16_be(port));
            },
            AddressModel::Ipv6(groups, port) => {
                lemma_u16_roundtrip(port);
                assert(s.subrange(17, 19) =~= u16_be(port));
                let body = s.subrange(1, 17);
                assert(body =~= hextets_wire(groups));
                assert forall|i: int| 0 <= i < 8 implies hextets_of(body)[i] == groups[i] by {
                    let g = groups[i];
                    lemma_u16_roundtrip(g);
                    assert(body.subrange(2 * i, 2 * i + 2) =~= u16_be(g));
                }
                assert(hextets_of(body) =~= groups);
            },
            AddressModel::OnionV3(body, port) => {
                lemma_u16_roundtrip(port);
                assert(s.subrange(1, 57) =~= body);
                assert(s.subrange(57, 59) =~= u16_be(port));
            },
        }
    }
}

/// What a known tag with a body of `body` bytes reads as: the tag, the body
/// and two bytes of port must all be there.
pub open spec fn parse_body(s: Seq<u8>, body: nat, m: AddressModel) -> Result<
    (AddressModel, nat),
    Error,
> {
    if s.len() < 1 + body + 2 {
        Err(Error::TruncatedInput)
    } else {
        Ok((m, 1 + body + 2))
    }
}

} // verus!
