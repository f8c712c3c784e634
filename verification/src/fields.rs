//! The building blocks that message bodies are made of: integers, byte
//! arrays, byte strings, text, lists, and one thing after another.

use vstd::prelude::*;
use vstd::slice::{slice_subrange, slice_to_vec};
use vstd::utf8::{decode_utf8, encode_utf8, valid_utf8, decode_utf8_encode_utf8, encode_utf8_decode_utf8, encode_utf8_valid_utf8};
use crate::error::Error;
use crate::primitives::{get_array, get_u64_le, get_varint, le_u64, parse_fixed, parse_varint, put_bytes, put_u64_le, put_varint, tail, u64_le, varint_wire, lemma_parse_varint_len, lemma_u64_roundtrip, lemma_varint_roundtrip};
use crate::wire::{all_canonical, all_encodable, decode_list, encode_list, parse_list, seq_view, wire_list, Wire, lemma_list_roundtrip, lemma_parse_list_sound};

verus! {

/// An integer that the wire carries in variable length.
#[derive(Clone, Copy, PartialEq, Eq, PartialOrd, Ord, Debug, Hash, Structural)]
pub struct VarInt(pub u64);

impl View for VarInt {
    type V = u64;

    open spec fn view(&self) -> u64 {
        self.0
    }
}

impl Wire for VarInt {
    open spec fn canonical(m: u64) -> bool {
        true
    }

    open spec fn encodable(m: u64) -> bool {
        true
    }

    open spec fn wire(m: u64) -> Seq<u8> {
        varint_wire(m)
    }

    open spec fn parse(s: Seq<u8>) -> Result<(u64, nat), Error> {
        parse_varint(s)
    }

    fn consensus_encode(&self, out: &mut Vec<u8>) {
        put_varint(out, self.0);
    }

    fn consensus_decode(buf: &[u8]) -> (r: Result<(VarInt, usize), Error>) {
        let (x, n) = get_varint(buf)?;
        Ok((VarInt(x), n))
    }

    proof fn lemma_parse_sound(s: Seq<u8>) {
        lemma_parse_varint_len(s);
    }

    proof fn lemma_roundtrip(m: u64, rest: Seq<u8>) {
        lemma_varint_roundtrip(m, rest);
    }
}

/// A 64-bit number in eight bytes, least significant first.
impl Wire for u64 {
    open spec fn canonical(m: u64) -> bool {
        true
    }

    open spec fn encodable(m: u64) -> bool {
        true
    }

    open spec fn wire(m: u64) -> Seq<u8> {
        u64_le(m)
    }

    open spec fn parse(s: Seq<u8>) -> Result<(u64, nat), Error> {
        parse_fixed(s, 8, le_u64(s))
    }

    fn consensus_encode(&self, out: &mut Vec<u8>) {
        put_u64_le(out, *self);
    }

    fn consensus_decode(buf: &[u8]) -> (r: Result<(u64, usize), Error>) {
        get_u64_le(buf)
    }

    proof fn lemma_parse_sound(s: Seq<u8>) {
    }

    proof fn lemma_roundtrip(m: u64, rest: Seq<u8>) {
        let s = u64_le(m) + rest;
        lemma_u64_roundtrip(m);
        assert(s.subrange(0, 4) =~= u64_le(m).subrange(0, 4));
        assert(s.subrange(4, 8) =~= u64_le(m).subrange(4, 8));
    }
}

/// A byte array of fixed length goes on the wire as it is.
impl<const N: usize> Wire for [u8; N] {
    open spec fn canonical(m: Seq<u8>) -> bool {
        m.len() == N
    }

    open spec fn encodable(m: Seq<u8>) -> bool {
        true
    }

    open spec fn wire(m: Seq<u8>) -> Seq<u8> {
        m
    }

    open spec fn parse(s: Seq<u8>) -> Result<(Seq<u8>, nat), Error> {
        parse_fixed(s, N as nat, s.take(N as int))
    }

    fn consensus_encode(&self, out: &mut Vec<u8>) {
        put_bytes(out, self.as_slice());
    }

    fn consensus_decode(buf: &[u8]) -> (r: Result<([u8; N], usize), Error>) {
        get_array::<N>(buf)
    }

    proof fn lemma_parse_sound(s: Seq<u8>) {
    }

    proof fn lemma_roundtrip(m: Seq<u8>, rest: Seq<u8>) {
        assert((m + rest).take(N as int) =~= m);
    }
}

/// A byte string: its length as a variable-length integer, then the bytes.
impl Wire for Vec<u8> {
    open spec fn canonical(m: Seq<u8>) -> bool {
        m.len() <= u64::MAX
    }

    open spec fn encodable(m: Seq<u8>) -> bool {
        true
    }

    open spec fn wire(m: Seq<u8>) -> Seq<u8> {
        varint_wire(m.len() as u64) + m
    }

    /// A declared length beyond what is left of `s` is refused.
    open spec fn parse(s: Seq<u8>) -> Result<(Seq<u8>, nat), Error> {
        match parse_varint(s) {
            Err(e) => Err(e),
            Ok((len, n)) => if s.len() - n < len {
                Err(Error::TruncatedInput)
            } else {
                Ok((s.subrange(n as int, n + len), n + len as nat))
            },
        }
    }

    fn consensus_encode(&self, out: &mut Vec<u8>) {
        put_varint(out, self.len() as u64);
        put_bytes(out, self.as_slice());
    }

    fn consensus_decode(buf: &[u8]) -> (r: Result<(Vec<u8>, usize), Error>) {
        let (len, n) = get_varint(buf)?;
        if ((buf.len() - n) as u64) < len {
            return Err(Error::TruncatedInput);
        }
        let end = n + len as usize;
        Ok((slice_to_vec(slice_subrange(buf, n, end)), end))
    }

    proof fn lemma_parse_sound(s: Seq<u8>) {
        lemma_parse_varint_len(s);
    }

    proof fn lemma_roundtrip(m: Seq<u8>, rest: Seq<u8>) {
        let head = varint_wire(m.len() as u64);
        let s = head + m + rest;
        lemma_varint_roundtrip(m.len() as u64, m + rest);
        assert(s =~= head + (m + rest));
        assert(s.subrange(head.len() as int, (head.len() + m.len()) as int) =~= m);
    }
}

/// What `String::from_utf8` of the standard library makes of `bytes`: the
/// text that they encode, if they are UTF-8, and nothing otherwise.
#[verifier::external_body]
pub(crate) fn text_from_utf8(bytes: Vec<u8>) -> (r: Option<String>)
    ensures
        r.is_some() == valid_utf8(bytes@),
        r matches Some(text) ==> encode_utf8(text@) == bytes@,
{
    String::from_utf8(bytes).ok()
}

/// Text: the length of its UTF-8 form as a variable-length integer, then
/// that form.
impl Wire for String {
    open spec fn canonical(m: Seq<char>) -> bool {
        encode_utf8(m).len() <= u64::MAX
    }

    open spec fn encodable(m: Seq<char>) -> bool {
        true
    }

    open spec fn wire(m: Seq<char>) -> Seq<u8> {
        <Vec<u8> as Wire>::wire(encode_utf8(m))
    }

    /// Reads a byte string and refuses it unless it is UTF-8.
    open spec fn parse(s: Seq<u8>) -> Result<(Seq<char>, nat), Error> {
        match <Vec<u8> as Wire>::parse(s) {
            Err(e) => Err(e),
            Ok((bytes, n)) => if valid_utf8(bytes) {
                Ok((decode_utf8(bytes), n))
            } else {
                Err(Error::InvalidText)
            },
        }
    }

    fn consensus_encode(&self, out: &mut Vec<u8>) {
        let bytes = self.as_str().as_bytes();
        put_varint(out, bytes.len() as u64);
        put_bytes(out, bytes);
    }

    fn consensus_decode(buf: &[u8]) -> (r: Result<(String, usize), Error>) {
        let (bytes, n) = <Vec<u8> as Wire>::consensus_decode(buf)?;
        match text_from_utf8(bytes) {
            Some(text) => {
                proof {
                    encode_utf8_decode_utf8(text@);
                }
                Ok((text, n))
            },
            None => Err(Error::InvalidText),
        }
    }

    proof fn lemma_parse_sound(s: Seq<u8>) {
        <Vec<u8> as Wire>::lemma_parse_sound(s);
        if let Ok((bytes, n)) = <Vec<u8> as Wire>::parse(s) {
            if valid_utf8(bytes) {
                decode_utf8_encode_utf8(bytes);
            }
        }
    }

    proof fn lemma_roundtrip(m: Seq<char>, rest: Seq<u8>) {
        <Vec<u8> as Wire>::lemma_roundtrip(encode_utf8(m), rest);
        encode_utf8_valid_utf8(m);
        encode_utf8_decode_utf8(m);
    }
}

/// One value after another.
impl<A: Wire, B: Wire> Wire for (A, B) {
    open spec fn canonical(m: (A::V, B::V)) -> bool {
        A::canonical(m.0) && B::canonical(m.1)
    }

    open spec fn encodable(m: (A::V, B::V)) -> bool {
        A::encodable(m.0) && B::encodable(m.1)
    }

    open spec fn wire(m: (A::V, B::V)) -> Seq<u8> {
        A::wire(m.0) + B::wire(m.1)
    }

    /// The second value is read from where the first one ended.
    open spec fn parse(s: Seq<u8>) -> Result<((A::V, B::V), nat), Error> {
        match A::parse(s) {
            Err(e) => Err(e),
            Ok((a, n)) => match B::parse(s.skip(n as int)) {
                Err(e) => Err(e),
                Ok((b, k)) => Ok(((a, b), n + k)),
            },
        }
    }

    fn consensus_encode(&self, out: &mut Vec<u8>) {
        self.0.consensus_encode(out);
        self.1.consensus_encode(out);
    }

    fn consensus_decode(buf: &[u8]) -> (r: Result<((A, B), usize), Error>) {
        let total = buf.len();
        let (a, n) = A::consensus_decode(buf)?;
        proof {
            A::lemma_parse_sound(buf@);
        }
        let rest = tail(buf, n);
        let (b, k) = B::consensus_decode(rest)?;
        proof {
            B::lemma_parse_sound(rest@);
        }
        Ok(((a, b), n + k))
    }

    proof fn lemma_parse_sound(s: Seq<u8>) {
        A::lemma_parse_sound(s);
        if let Ok((a, n)) = A::parse(s) {
            B::lemma_parse_sound(s.skip(n as int));
        }
    }

    proof fn lemma_roundtrip(m: (A::V, B::V), rest: Seq<u8>) {
        let s = A::wire(m.0) + B::wire(m.1) + rest;
        A::lemma_roundtrip(m.0, B::wire(m.1) + rest);
        assert(s =~= A::wire(m.0) + (B::wire(m.1) + rest));
        assert(s.skip(A::wire(m.0).len() as int) =~= B::wire(m.1) + rest);
        B::lemma_roundtrip(m.1, rest);
    }
}

/// A list of values with its item count in front.
#[derive(Clone, PartialEq, Eq, PartialOrd, Ord, Debug, Hash)]
pub struct LengthVec<T>(pub Vec<T>);

impl<T: View> View for LengthVec<T> {
    type V = Seq<T::V>;

    open spec fn view(&self) -> Seq<T::V> {
        seq_view(self.0@)
    }
}

impl<T: Wire> Wire for LengthVec<T> {
    /// Every item is canonical and the count fits the count field.
    open spec fn canonical(m: Seq<T::V>) -> bool {
        all_canonical::<T>(m) && m.len() <= u64::MAX
    }

    open spec fn encodable(m: Seq<T::V>) -> bool {
        all_encodable::<T>(m)
    }

    open spec fn wire(m: Seq<T::V>) -> Seq<u8> {
        wire_list::<T>(m)
    }

    open spec fn parse(s: Seq<u8>) -> Result<(Seq<T::V>, nat), Error> {
        parse_list::<T>(s)
    }

    fn consensus_encode(&self, out: &mut Vec<u8>) {
        encode_list(self.0.as_slice(), out);
    }

    fn consensus_decode(buf: &[u8]) -> (r: Result<(LengthVec<T>, usize), Error>) {
        let (items, n) = decode_list::<T>(buf)?;
        Ok((LengthVec(items), n))
    }

    proof fn lemma_parse_sound(s: Seq<u8>) {
        lemma_parse_list_sound::<T>(s);
    }

    proof fn lemma_roundtrip(m: Seq<T::V>, rest: Seq<u8>) {
        lemma_list_roundtrip::<T>(m, rest);
    }
}

} // verus!
