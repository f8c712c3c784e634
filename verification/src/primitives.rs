//! Fixed-width integers and the variable-length integer of the wire format.
//!
//! Every function here comes as a pair: a spec function over `Seq<u8>` that
//! says which bytes stand for a number, and an executable function proved
//! against it.

use vstd::prelude::*;
use vstd::slice::slice_subrange;
use crate::error::Error;

verus! {

/// The two bytes of `x`, least significant first.
pub open spec fn u16_le(x: u16) -> Seq<u8> {
    seq![(x % 256) as u8, (x / 256) as u8]
}

/// The two bytes of `x`, most significant first.
pub open spec fn u16_be(x: u16) -> Seq<u8> {
    seq![(x / 256) as u8, (x % 256) as u8]
}

/// The four bytes of `x`, least significant first.
pub open spec fn u32_le(x: u32) -> Seq<u8> {
    seq![
        (x % 256) as u8,
        (x / 0x100 % 256) as u8,
        (x / 0x1_0000 % 256) as u8,
        (x / 0x100_0000) as u8,
    ]
}

/// The four bytes of `x`, most significant first.
pub open spec fn u32_be(x: u32) -> Seq<u8> {
    seq![
        (x / 0x100_0000) as u8,
        (x / 0x1_0000 % 256) as u8,
        (x / 0x100 % 256) as u8,
        (x % 256) as u8,
    ]
}

/// The eight bytes of `x`, least significant first.
pub open spec fn u64_le(x: u64) -> Seq<u8> {
    u32_le((x % 0x1_0000_0000) as u32) + u32_le((x / 0x1_0000_0000) as u32)
}

/// The number whose little-endian bytes are the first two of `s`.
pub open spec fn le_u16(s: Seq<u8>) -> u16 {
    (s[0] + 0x100 * s[1]) as u16
}

/// The number whose big-endian bytes are the first two of `s`.
pub open spec fn be_u16(s: Seq<u8>) -> u16 {
    (0x100 * s[0] + s[1]) as u16
}

/// The number whose little-endian bytes are the first four of `s`.
pub open spec fn le_u32(s: Seq<u8>) -> u32 {
    (s[0] + 0x100 * s[1] + 0x1_0000 * s[2] + 0x100_0000 * s[3]) as u32
}

/// The number whose big-endian bytes are the first four of `s`.
pub open spec fn be_u32(s: Seq<u8>) -> u32 {
    (0x100_0000 * s[0] + 0x1_0000 * s[1] + 0x100 * s[2] + s[3]) as u32
}

/// The number whose little-endian bytes are the first eight of `s`.
pub open spec fn le_u64(s: Seq<u8>) -> u64 {
    (le_u32(s.subrange(0, 4)) + 0x1_0000_0000 * le_u32(s.subrange(4, 8))) as u64
}

/// The variable-length integer: values below `0xFD` take one byte, larger
/// ones a marker byte (`0xFD`, `0xFE`, `0xFF`) and then 2, 4 or 8 bytes,
/// least significant first.
#[verifier::opaque]
pub open spec fn varint_wire(x: u64) -> Seq<u8> {
    if x < 0xFD {
        seq![x as u8]
    } else if x <= 0xFFFF {
        seq![0xFDu8] + u16_le(x as u16)
    } else if x <= 0xFFFF_FFFF {
        seq![0xFEu8] + u32_le(x as u32)
    } else {
        seq![0xFFu8] + u64_le(x)
    }
}

/// Reads a variable-length integer from the front of `s`: the value and the
/// number of bytes it took. An integer written wider than it needs is
/// refused, so every value has exactly one encoding.
#[verifier::opaque]
pub open spec fn parse_varint(s: Seq<u8>) -> Result<(u64, nat), Error> {
    if s.len() < 1 {
        Err(Error::TruncatedInput)
    } else if s[0] < 0xFD {
        Ok((s[0] as u64, 1))
    } else if s[0] == 0xFD {
        if s.len() < 3 {
            Err(Error::TruncatedInput)
        } else if le_u16(s.subrange(1, 3)) < 0xFD {
            Err(Error::NonMinimalVarInt)
        } else {
            Ok((le_u16(s.subrange(1, 3)) as u64, 3))
        }
    } else if s[0] == 0xFE {
        if s.len() < 5 {
            Err(Error::TruncatedInput)
        } else if le_u32(s.subrange(1, 5)) <= 0xFFFF {
            Err(Error::NonMinimalVarInt)
        } else {
            Ok((le_u32(s.subrange(1, 5)) as u64, 5))
        }
    } else {
        if s.len() < 9 {
            Err(Error::TruncatedInput)
        } else if le_u64(s.subrange(1, 9)) <= 0xFFFF_FFFF {
            Err(Error::NonMinimalVarInt)
        } else {
            Ok((le_u64(s.subrange(1, 9)), 9))
        }
    }
}

/// A 32-bit number is the sum of its four bytes, each at its place.
proof fn lemma_bytes_of_u32(x: u32)
    by (bit_vector)
    ensures
        x % 256 + 0x100 * (x / 0x100 % 256) + 0x1_0000 * (x / 0x1_0000 % 256) + 0x100_0000 * (x
            / 0x100_0000) == x,
        x / 0x100_0000 < 256,
{
}

/// Four bytes, each at its place, sum to a 32-bit number that holds them.
proof fn lemma_u32_of_bytes(b0: u8, b1: u8, b2: u8, b3: u8)
    by (bit_vector)
    ensures
        b0 + 0x100 * b1 + 0x1_0000 * b2 + 0x100_0000 * b3 < 0x1_0000_0000,
        (b0 + 0x100 * b1 + 0x1_0000 * b2 + 0x100_0000 * b3) % 256 == b0,
        (b0 + 0x100 * b1 + 0x1_0000 * b2 + 0x100_0000 * b3) / 0x100 % 256 == b1,
        (b0 + 0x100 * b1 + 0x1_0000 * b2 + 0x100_0000 * b3) / 0x1_0000 % 256 == b2,
        (b0 + 0x100 * b1 + 0x1_0000 * b2 + 0x100_0000 * b3) / 0x100_0000 == b3,
{
}

/// Reading the two bytes of a number gives the number back, in either order.
pub proof fn lemma_u16_roundtrip(a: u16)
    ensures
        le_u16(u16_le(a)) == a,
        be_u16(u16_be(a)) == a,
{
}

/// Reading the four bytes of a number gives the number back, in either order.
pub proof fn lemma_u32_roundtrip(b: u32)
    ensures
        le_u32(u32_le(b)) == b,
        be_u32(u32_be(b)) == b,
{
    lemma_bytes_of_u32(b);
}

/// Reading the eight bytes of a number gives the number back.
pub proof fn lemma_u64_roundtrip(c: u64)
    ensures
        le_u64(u64_le(c)) == c,
{
    let lo = (c % 0x1_0000_0000) as u32;
    let hi = (c / 0x1_0000_0000) as u32;
    lemma_u32_roundtrip(lo);
    lemma_u32_roundtrip(hi);
    assert(u64_le(c).subrange(0, 4) =~= u32_le(lo));
    assert(u64_le(c).subrange(4, 8) =~= u32_le(hi));
}

/// A variable-length integer reads back as the value that was written,
/// whatever follows it.
pub proof fn lemma_varint_roundtrip(x: u64, rest: Seq<u8>)
    ensures
        parse_varint(varint_wire(x) + rest) == Ok::<(u64, nat), Error>((x, varint_wire(x).len())),
        1 <= varint_wire(x).len() <= 9,
{
    reveal(varint_wire);
    reveal(parse_varint);
    let s = varint_wire(x) + rest;
    if x < 0xFD {
    } else if x <= 0xFFFF {
        lemma_u16_roundtrip(x as u16);
        assert(s.subrange(1, 3) =~= u16_le(x as u16));
    } else if x <= 0xFFFF_FFFF {
        lemma_u32_roundtrip(x as u32);
        assert(s.subrange(1, 5) =~= u32_le(x as u32));
    } else {
        lemma_u64_roundtrip(x);
        assert(s.subrange(1, 9) =~= u64_le(x));
    }
}

/// Reading a variable-length integer takes at least one byte and never
/// more than there are.
pub proof fn lemma_parse_varint_len(s: Seq<u8>)
    ensures
        parse_varint(s) matches Ok((_, n)) ==> 1 <= n <= s.len(),
{
    reveal(parse_varint);
}

/// `x` with its two bytes in the other order.
pub open spec fn swap16(x: u16) -> u16 {
    ((x % 256) * 256 + x / 256) as u16
}

/// `x` with its four bytes in reverse order.
pub open spec fn swap32(x: u32) -> u32 {
    ((x % 256) * 0x100_0000 + (x / 0x100 % 256) * 0x1_0000 + (x / 0x1_0000 % 256) * 0x100 + x
        / 0x100_0000) as u32
}

/// Reversing the two bytes of a number and writing it least significant
/// byte first puts its most significant byte first; the same holds for
/// reading.
pub proof fn lemma_swap16(a: u16, s: Seq<u8>)
    ensures
        u16_le(swap16(a)) == u16_be(a),
        swap16(le_u16(s)) == be_u16(s),
{
    assert(u16_le(swap16(a)) =~= u16_be(a));
}

/// Reversing the four bytes of a number and writing it least significant
/// byte first puts its most significant byte first; the same holds for
/// reading.
pub proof fn lemma_swap32(b: u32, s: Seq<u8>)
    ensures
        u32_le(swap32(b)) == u32_be(b),
        swap32(le_u32(s)) == be_u32(s),
{
    lemma_bytes_of_u32(b);
    let b0 = (b % 256) as u8;
    let b1 = (b / 0x100 % 256) as u8;
    let b2 = (b / 0x1_0000 % 256) as u8;
    let b3 = (b / 0x100_0000) as u8;
    lemma_u32_of_bytes(b3, b2, b1, b0);
    assert(swap32(b) == b3 + 0x100 * b2 + 0x1_0000 * b1 + 0x100_0000 * b0);
    assert(u32_le(swap32(b)) =~= u32_be(b));
    lemma_u32_of_bytes(s[0], s[1], s[2], s[3]);
    lemma_u32_of_bytes(s[3], s[2], s[1], s[0]);
}

/// Computes [`swap16`].
pub fn swap16_of(x: u16) -> (r: u16)
    ensures
        r == swap16(x),
{
    (x % 256) * 256 + x / 256
}

/// Computes [`swap32`].
pub fn swap32_of(x: u32) -> (r: u32)
    ensures
        r == swap32(x),
{
    (x % 256) * 0x100_0000 + (x / 0x100 % 256) * 0x1_0000 + (x / 0x1_0000 % 256) * 0x100 + x
        / 0x100_0000
}

/// The low 32 bits of `x`: what is kept of an index or a count that the
/// format carries in a variable-length integer and the value holds in 32 bits.
pub open spec fn low32(x: u64) -> u32 {
    (x % 0x1_0000_0000) as u32
}

/// Computes [`low32`].
pub fn low32_of(x: u64) -> (r: u32)
    ensures
        r == low32(x),
{
    (x % 0x1_0000_0000) as u32
}

/// Reads a fixed-width number from the front of `s`, or reports that `s` is
/// too short: `width` bytes are needed and `value` says what they hold.
pub open spec fn parse_fixed<T>(s: Seq<u8>, width: nat, value: T) -> Result<(T, nat), Error> {
    if s.len() < width {
        Err(Error::TruncatedInput)
    } else {
        Ok((value, width))
    }
}

/// Appends the two bytes of `x`, least significant first.
pub fn put_u16_le(out: &mut Vec<u8>, x: u16)
    ensures
        final(out)@ == old(out)@ + u16_le(x),
{
    out.push((x % 256) as u8);
    out.push((x / 256) as u8);
}

/// Appends the four bytes of `x`, least significant first.
pub fn put_u32_le(out: &mut Vec<u8>, x: u32)
    ensures
        final(out)@ == old(out)@ + u32_le(x),
{
    out.push((x % 256) as u8);
    out.push((x / 0x100 % 256) as u8);
    out.push((x / 0x1_0000 % 256) as u8);
    out.push((x / 0x100_0000) as u8);
}

/// Appends the eight bytes of `x`, least significant first.
pub fn put_u64_le(out: &mut Vec<u8>, x: u64)
    ensures
        final(out)@ == old(out)@ + u64_le(x),
{
    put_u32_le(out, (x % 0x1_0000_0000) as u32);
    put_u32_le(out, (x / 0x1_0000_0000) as u32);
}

/// Appends `x` as a variable-length integer.
pub fn put_varint(out: &mut Vec<u8>, x: u64)
    ensures
        final(out)@ == old(out)@ + varint_wire(x),
{
    reveal(varint_wire);
    if x < 0xFD {
        out.push(x as u8);
    } else if x <= 0xFFFF {
        out.push(0xFD);
        put_u16_le(out, x as u16);
    } else if x <= 0xFFFF_FFFF {
        out.push(0xFE);
        put_u32_le(out, x as u32);
    } else {
        out.push(0xFF);
        put_u64_le(out, x);
    }
}

/// Appends `bytes` as they are.
pub fn put_bytes(out: &mut Vec<u8>, bytes: &[u8])
    ensures
        final(out)@ == old(out)@ + bytes@,
{
    out.extend_from_slice(bytes);
}

/// What is left of `buf` after its first `n` bytes.
pub fn tail(buf: &[u8], n: usize) -> (r: &[u8])
    requires
        n <= buf@.len(),
    ensures
        r@ == buf@.skip(n as int),
{
    slice_subrange(buf, n, buf.len())
}

/// Reads a little-endian `u16` from the front of `buf`.
pub fn get_u16_le(buf: &[u8]) -> (r: Result<(u16, usize), Error>)
    ensures
        r matches Ok((x, n)) ==> parse_fixed(buf@, 2, le_u16(buf@)) == Ok::<(u16, nat), Error>(
            (x, n as nat),
        ),
        r matches Err(e) ==> parse_fixed(buf@, 2, le_u16(buf@)) == Err::<(u16, nat), Error>(e),
{
    if buf.len() < 2 {
        Err(Error::TruncatedInput)
    } else {
        Ok((buf[0] as u16 + 0x100 * (buf[1] as u16), 2))
    }
}

/// Reads a little-endian `u32` from the front of `buf`.
pub fn get_u32_le(buf: &[u8]) -> (r: Result<(u32, usize), Error>)
    ensures
        r matches Ok((x, n)) ==> parse_fixed(buf@, 4, le_u32(buf@)) == Ok::<(u32, nat), Error>(
            (x, n as nat),
        ),
        r matches Err(e) ==> parse_fixed(buf@, 4, le_u32(buf@)) == Err::<(u32, nat), Error>(e),
{
    if buf.len() < 4 {
        Err(Error::TruncatedInput)
    } else {
        Ok(
            (
                buf[0] as u32 + 0x100 * (buf[1] as u32) + 0x1_0000 * (buf[2] as u32) + 0x100_0000
                    * (buf[3] as u32),
                4,
            ),
        )
    }
}

/// Reads a little-endian `u64` from the front of `buf`.
pub fn get_u64_le(buf: &[u8]) -> (r: Result<(u64, usize), Error>)
    ensures
        r matches Ok((x, n)) ==> parse_fixed(buf@, 8, le_u64(buf@)) == Ok::<(u64, nat), Error>(
            (x, n as nat),
        ),
        r matches Err(e) ==> parse_fixed(buf@, 8, le_u64(buf@)) == Err::<(u64, nat), Error>(e),
{
    if buf.len() < 8 {
        Err(Error::TruncatedInput)
    } else {
        let lo: u64 = buf[0] as u64 + 0x100 * (buf[1] as u64) + 0x1_0000 * (buf[2] as u64) + 0x100_0000
            * (buf[3] as u64);
        let hi: u64 = buf[4] as u64 + 0x100 * (buf[5] as u64) + 0x1_0000 * (buf[6] as u64) + 0x100_0000
            * (buf[7] as u64);
        Ok((lo + 0x1_0000_0000 * hi, 8))
    }
}

/// Reads a variable-length integer from the front of `buf`.
pub fn get_varint(buf: &[u8]) -> (r: Result<(u64, usize), Error>)
    ensures
        r matches Ok((x, n)) ==> parse_varint(buf@) == Ok::<(u64, nat), Error>((x, n as nat)) && 1
            <= n <= buf@.len(),
        r matches Err(e) ==> parse_varint(buf@) == Err::<(u64, nat), Error>(e),
{
    reveal(parse_varint);
    if buf.len() < 1 {
        return Err(Error::TruncatedInput);
    }
    let marker: u8 = buf[0];
    let body = tail(buf, 1);
    if marker < 0xFD {
        Ok((marker as u64, 1))
    } else if marker == 0xFD {
        let (x, _) = get_u16_le(body)?;
        assert(body@.subrange(0, 2) =~= buf@.subrange(1, 3));
        if x < 0xFD {
            Err(Error::NonMinimalVarInt)
        } else {
            Ok((x as u64, 3))
        }
    } else if marker == 0xFE {
        let (x, _) = get_u32_le(body)?;
        if x <= 0xFFFF {
            Err(Error::NonMinimalVarInt)
        } else {
            Ok((x as u64, 5))
        }
    } else {
        let (x, _) = get_u64_le(body)?;
        assert(body@.subrange(0, 4) =~= buf@.subrange(1, 9).subrange(0, 4));
        assert(body@.subrange(4, 8) =~= buf@.subrange(1, 9).subrange(4, 8));
        if x <= 0xFFFF_FFFF {
            Err(Error::NonMinimalVarInt)
        } else {
            Ok((x, 9))
        }
    }
}

/// Reads `N` bytes from the front of `buf` into an array.
pub fn get_array<const N: usize>(buf: &[u8]) -> (r: Result<([u8; N], usize), Error>)
    ensures
        r matches Ok((a, n)) ==> buf@.len() >= N && n == N && a@ == buf@.take(N as int),
        r matches Err(e) ==> buf@.len() < N && e == Error::TruncatedInput,
{
    if buf.len() < N {
        return Err(Error::TruncatedInput);
    }
    let mut a = [0u8; N];
    let mut i: usize = 0;
    while i < N
        invariant
            i <= N <= buf@.len(),
            forall|j: int| 0 <= j < i ==> a@[j] == buf@[j],
        decreases N - i,
    {
        a[i] = buf[i];
        i += 1;
    }
    assert(a@ =~= buf@.take(N as int));
    Ok((a, N))
}

} // verus!
