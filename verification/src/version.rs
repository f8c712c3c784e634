//! Protocol versions: three ten-bit fields in one 32-bit word.

use vstd::prelude::*;
use crate::error::Error;
use crate::primitives::{be_u32, get_u32_le, parse_fixed, put_u32_le, swap32, swap32_of, u32_be, lemma_swap32, lemma_u32_roundtrip};
use crate::wire::Wire;

verus! {

/// A protocol version. Only the low ten bits of each field reach the wire.
#[derive(Clone, PartialEq, Eq, PartialOrd, Ord, Debug, Hash, Structural)]
pub struct Version {
    pub major: u16,
    pub minor: u16,
    pub patch: u16,
}

impl View for Version {
    type V = Version;

    open spec fn view(&self) -> Version {
        *self
    }
}

impl Default for Version {
    fn default() -> (r: Version)
        ensures
            r == Version::spec_current(),
    {
        Version::current()
    }
}

impl Version {
    /// The version that this library speaks.
    pub open spec fn spec_current() -> Version {
        Version { major: 2, minor: 0, patch: 0 }
    }

    /// The packed word: two reserved low bits, then ten bits each of major,
    /// minor and patch. Higher bits of a field are dropped.
    pub open spec fn spec_pack(self) -> u32 {
        ((self.major & 0x3FF) as u32) << 2 | ((self.minor & 0x3FF) as u32) << 12 | ((self.patch
            & 0x3FF) as u32) << 22
    }

    /// The version that a packed word holds.
    pub open spec fn spec_unpack(w: u32) -> Version {
        Version {
            major: ((w >> 2) & 0x3FF) as u16,
            minor: ((w >> 12) & 0x3FF) as u16,
            patch: ((w >> 22) & 0x3FF) as u16,
        }
    }

    /// Every field fits its ten bits.
    pub open spec fn fits(self) -> bool {
        self.major < 1024 && self.minor < 1024 && self.patch < 1024
    }

    /// The version with each field cut to its low ten bits.
    pub open spec fn truncated(self) -> Version {
        Version { major: self.major & 0x3FF, minor: self.minor & 0x3FF, patch: self.patch & 0x3FF }
    }

    /// Current implemented version.
    pub fn current() -> (r: Version)
        ensures
            r == Version::spec_current(),
    {
        Version { major: 2, minor: 0, patch: 0 }
    }

    /// Two versions are compatible exactly when their major fields agree.
    pub fn compatible(&self, v: &Version) -> (r: bool)
        ensures
            r == (self.major == v.major),
    {
        self.major == v.major
    }

    /// Pack version as 32 bit word with 10 bits per component and 2 reserved bits.
    pub fn pack(&self) -> (r: u32)
        ensures
            r == self.spec_pack(),
    {
        ((self.major & 0x3FF) as u32) << 2 | ((self.minor & 0x3FF) as u32) << 12 | ((self.patch
            & 0x3FF) as u32) << 22
    }

    /// Unpack version from 32 bit word with 10 bits per component and 2 reserved bits.
    pub fn unpack(w: u32) -> (r: Version)
        ensures
            r == Version::spec_unpack(w),
            r.fits(),
    {
        proof {
            lemma_unpack_fits(w);
        }
        Version {
            major: ((w >> 2) & 0x3FF) as u16,
            minor: ((w >> 12) & 0x3FF) as u16,
            patch: ((w >> 22) & 0x3FF) as u16,
        }
    }

    /// The packed word with its bytes reversed: written least significant
    /// byte first, it puts the packed word on the wire most significant
    /// byte first.
    pub fn pack_be(&self) -> (r: u32)
        ensures
            r == swap32(self.spec_pack()),
    {
        swap32_of(self.pack())
    }

    /// The version in a word that was read least significant byte first
    /// from bytes that hold the packed word most significant byte first.
    pub fn unpack_be(w: u32) -> (r: Version)
        ensures
            r == Version::spec_unpack(swap32(w)),
    {
        Version::unpack(swap32_of(w))
    }
}

/// Every field of an unpacked version fits its ten bits.
pub proof fn lemma_unpack_fits(w: u32)
    ensures
        Version::spec_unpack(w).fits(),
        (w >> 2) & 0x3FF < 1024,
        (w >> 12) & 0x3FF < 1024,
        (w >> 22) & 0x3FF < 1024,
{
    assert((w >> 2) & 0x3FF < 1024) by (bit_vector);
    assert((w >> 12) & 0x3FF < 1024) by (bit_vector);
    assert((w >> 22) & 0x3FF < 1024) by (bit_vector);
}

/// Unpacking a packed version gives the version with each field cut to ten
/// bits; where every field fits, that is the version itself.
pub proof fn lemma_pack_unpack(v: Version)
    ensures
        Version::spec_unpack(v.spec_pack()) == v.truncated(),
        v.fits() ==> Version::spec_unpack(v.spec_pack()) == v,
{
    let a = v.major;
    let b = v.minor;
    let c = v.patch;
    assert(((((((a & 0x3FF) as u32) << 2 | ((b & 0x3FF) as u32) << 12 | ((c & 0x3FF) as u32)
        << 22)) >> 2) & 0x3FF) as u16 == a & 0x3FF) by (bit_vector);
    assert(((((((a & 0x3FF) as u32) << 2 | ((b & 0x3FF) as u32) << 12 | ((c & 0x3FF) as u32)
        << 22)) >> 12) & 0x3FF) as u16 == b & 0x3FF) by (bit_vector);
    assert(((((((a & 0x3FF) as u32) << 2 | ((b & 0x3FF) as u32) << 12 | ((c & 0x3FF) as u32)
        << 22)) >> 22) & 0x3FF) as u16 == c & 0x3FF) by (bit_vector);
    if v.fits() {
        assert(a & 0x3FF == a) by (bit_vector)
            requires
                a < 1024,
        ;
        assert(b & 0x3FF == b) by (bit_vector)
            requires
                b < 1024,
        ;
        assert(c & 0x3FF == c) by (bit_vector)
            requires
                c < 1024,
        ;
    }
}

impl Wire for Version {
    open spec fn canonical(m: Version) -> bool {
        m.fits()
    }

    open spec fn encodable(m: Version) -> bool {
        true
    }

    /// The packed word, most significant byte first.
    open spec fn wire(m: Version) -> Seq<u8> {
        u32_be(m.spec_pack())
    }

    open spec fn parse(s: Seq<u8>) -> Result<(Version, nat), Error> {
        parse_fixed(s, 4, Version::spec_unpack(be_u32(s)))
    }

    fn consensus_encode(&self, out: &mut Vec<u8>) {
        proof {
            lemma_swap32(self.spec_pack(), Seq::empty());
        }
        put_u32_le(out, self.pack_be());
    }

    fn consensus_decode(buf: &[u8]) -> (r: Result<(Version, usize), Error>) {
        let (w, n) = get_u32_le(buf)?;
        proof {
            lemma_swap32(0, buf@);
        }
        Ok((Version::unpack_be(w), n))
    }

    proof fn lemma_parse_sound(s: Seq<u8>) {
        lemma_unpack_fits(be_u32(s));
    }

    proof fn lemma_roundtrip(m: Version, rest: Seq<u8>) {
        let s = u32_be(m.spec_pack()) + rest;
        lemma_u32_roundtrip(m.spec_pack());
        assert(be_u32(s) == be_u32(u32_be(m.spec_pack())));
        lemma_pack_unpack(m);
    }
}

} // verus!
