//! What it means for a type to have a wire form, and the two ways in which
//! the format puts several values in a row: a bare run of items, and a list
//! that is led by its item count.

use vstd::prelude::*;
use crate::error::Error;
use crate::primitives::{get_varint, parse_varint, put_varint, tail, varint_wire, lemma_parse_varint_len, lemma_varint_roundtrip};

verus! {

/// A type with a wire form.
///
/// The model of a value is its view. `wire` says which bytes a model is
/// written as, `parse` which model (and how many bytes) a decoder reads from
/// the front of a byte string, or why it refuses.
pub trait Wire: Sized + View {
    /// The models that `parse` gives back from their own wire form. Values
    /// outside it can be built and written, but read back as something else
    /// or not at all.
    spec fn canonical(m: Self::V) -> bool;

    /// The models that may be written at all.
    spec fn encodable(m: Self::V) -> bool;

    /// The bytes that stand for `m`.
    spec fn wire(m: Self::V) -> Seq<u8>;

    /// The model at the front of `s` and the number of bytes it takes.
    spec fn parse(s: Seq<u8>) -> Result<(Self::V, nat), Error>;

    /// Appends the wire form of `self` to `out`.
    fn consensus_encode(&self, out: &mut Vec<u8>)
        requires
            Self::encodable(self@),
        ensures
            final(out)@ == old(out)@ + Self::wire(self@),
    ;

    /// Reads one value from the front of `buf`, with the number of bytes read.
    fn consensus_decode(buf: &[u8]) -> (r: Result<(Self, usize), Error>)
        ensures
            r matches Ok((v, n)) ==> Self::parse(buf@) == Ok::<(Self::V, nat), Error>(
                (v@, n as nat),
            ),
            r matches Err(e) ==> Self::parse(buf@) == Err::<(Self::V, nat), Error>(e),
    ;

    /// A decoder never claims more bytes than it was given, and what it
    /// reads is canonical.
    proof fn lemma_parse_sound(s: Seq<u8>)
        ensures
            Self::parse(s) matches Ok((m, n)) ==> n <= s.len() && Self::canonical(m),
    ;

    /// A canonical model reads back from its wire form, whatever follows it.
    proof fn lemma_roundtrip(m: Self::V, rest: Seq<u8>)
        requires
            Self::canonical(m),
        ensures
            Self::parse(Self::wire(m) + rest) == Ok::<(Self::V, nat), Error>(
                (m, Self::wire(m).len()),
            ),
    ;
}

/// The models of a run of values.
pub open spec fn seq_view<T: View>(v: Seq<T>) -> Seq<T::V> {
    v.map_values(|t: T| t@)
}

/// Every item of the run is canonical.
pub open spec fn all_canonical<T: Wire>(items: Seq<T::V>) -> bool {
    forall|i: int| 0 <= i < items.len() ==> T::canonical(#[trigger] items[i])
}

/// Every item of the run may be written.
pub open spec fn all_encodable<T: Wire>(items: Seq<T::V>) -> bool {
    forall|i: int| 0 <= i < items.len() ==> T::encodable(#[trigger] items[i])
}

/// The wire forms of the items, one after the other.
pub open spec fn wire_seq<T: Wire>(items: Seq<T::V>) -> Seq<u8>
    decreases items.len(),
{
    if items.len() == 0 {
        Seq::empty()
    } else {
        T::wire(items[0]) + wire_seq::<T>(items.skip(1))
    }
}

/// Reads `count` items in a row from the front of `s`. The first item that
/// cannot be read decides the error.
pub open spec fn parse_seq<T: Wire>(s: Seq<u8>, count: nat) -> Result<(Seq<T::V>, nat), Error>
    decreases count,
{
    if count == 0 {
        Ok((Seq::empty(), 0))
    } else {
        match T::parse(s) {
            Err(e) => Err(e),
            Ok((x, n)) => match parse_seq::<T>(s.skip(n as int), (count - 1) as nat) {
                Err(e) => Err(e),
                Ok((xs, k)) => Ok((seq![x] + xs, n + k)),
            },
        }
    }
}

/// A list: the item count as a variable-length integer, then the items.
pub open spec fn wire_list<T: Wire>(items: Seq<T::V>) -> Seq<u8> {
    varint_wire(items.len() as u64) + wire_seq::<T>(items)
}

/// Reads a list: the count, then exactly that many items.
pub open spec fn parse_list<T: Wire>(s: Seq<u8>) -> Result<(Seq<T::V>, nat), Error> {
    match parse_varint(s) {
        Err(e) => Err(e),
        Ok((count, n)) => match parse_seq::<T>(s.skip(n as int), count as nat) {
            Err(e) => Err(e),
            Ok((xs, k)) => Ok((xs, n + k)),
        },
    }
}

/// What a decoder has read after `used` bytes gave `acc` and the rest gave `r`.
pub open spec fn prepend<V>(acc: Seq<V>, used: nat, r: Result<(Seq<V>, nat), Error>) -> Result<
    (Seq<V>, nat),
    Error,
> {
    match r {
        Err(e) => Err(e),
        Ok((xs, k)) => Ok((acc + xs, used + k)),
    }
}

/// The wire form of a run with one more item is the run's, then the item's.
pub proof fn lemma_wire_seq_push<T: Wire>(items: Seq<T::V>, x: T::V)
    ensures
        wire_seq::<T>(items.push(x)) == wire_seq::<T>(items) + T::wire(x),
    decreases items.len(),
{
    if items.len() == 0 {
        assert(items.push(x).skip(1) =~= Seq::<T::V>::empty());
        assert(wire_seq::<T>(items.push(x)) =~= T::wire(x) + wire_seq::<T>(Seq::<T::V>::empty()));
        assert(wire_seq::<T>(items.push(x)) =~= wire_seq::<T>(items) + T::wire(x));
    } else {
        lemma_wire_seq_push::<T>(items.skip(1), x);
        assert(items.push(x).skip(1) =~= items.skip(1).push(x));
        assert(wire_seq::<T>(items.push(x)) =~= wire_seq::<T>(items) + T::wire(x));
    }
}

/// Reading a run never claims more bytes than there are, and gives as
/// many items as were asked for, each of them canonical.
pub proof fn lemma_parse_seq_sound<T: Wire>(s: Seq<u8>, count: nat)
    ensures
        parse_seq::<T>(s, count) matches Ok((xs, n)) ==> n <= s.len() && xs.len() == count
            && all_canonical::<T>(xs),
    decreases count,
{
    if count > 0 {
        T::lemma_parse_sound(s);
        if let Ok((x, n)) = T::parse(s) {
            lemma_parse_seq_sound::<T>(s.skip(n as int), (count - 1) as nat);
            if let Ok((xs, k)) = parse_seq::<T>(s.skip(n as int), (count - 1) as nat) {
                let all = seq![x] + xs;
                assert forall|i: int| 0 <= i < all.len() implies T::canonical(#[trigger] all[i]) by {
                    if i > 0 {
                        assert(all[i] == xs[i - 1]);
                    }
                }
            }
        }
    }
}

/// A run of canonical items reads back from its wire form, whatever follows.
pub proof fn lemma_seq_roundtrip<T: Wire>(items: Seq<T::V>, rest: Seq<u8>)
    requires
        all_canonical::<T>(items),
    ensures
        parse_seq::<T>(wire_seq::<T>(items) + rest, items.len()) == Ok::<(Seq<T::V>, nat), Error>(
            (items, wire_seq::<T>(items).len()),
        ),
    decreases items.len(),
{
    if items.len() == 0 {
        assert(items =~= Seq::<T::V>::empty());
    } else {
        let head = items[0];
        let others = items.skip(1);
        let s = wire_seq::<T>(items) + rest;
        assert(T::canonical(head));
        assert(all_canonical::<T>(others)) by {
            assert forall|i: int| 0 <= i < others.len() implies T::canonical(
                #[trigger] others[i],
            ) by {
                assert(others[i] == items[i + 1]);
            }
        }
        T::lemma_roundtrip(head, wire_seq::<T>(others) + rest);
        assert(s =~= T::wire(head) + (wire_seq::<T>(others) + rest));
        assert(s.skip(T::wire(head).len() as int) =~= wire_seq::<T>(others) + rest);
        lemma_seq_roundtrip::<T>(others, rest);
        assert(seq![head] + others =~= items);
    }
}

/// A list of canonical items whose count fits the count field reads back
/// from its wire form, whatever follows.
pub proof fn lemma_list_roundtrip<T: Wire>(items: Seq<T::V>, rest: Seq<u8>)
    requires
        all_canonical::<T>(items),
        items.len() <= u64::MAX,
    ensures
        parse_list::<T>(wire_list::<T>(items) + rest) == Ok::<(Seq<T::V>, nat), Error>(
            (items, wire_list::<T>(items).len()),
        ),
{
    let count = items.len() as u64;
    let s = wire_list::<T>(items) + rest;
    lemma_varint_roundtrip(count, wire_seq::<T>(items) + rest);
    assert(s =~= varint_wire(count) + (wire_seq::<T>(items) + rest));
    assert(s.skip(varint_wire(count).len() as int) =~= wire_seq::<T>(items) + rest);
    lemma_seq_roundtrip::<T>(items, rest);
}

/// Reading a list never claims more bytes than there are, and every item
/// that is read is canonical.
pub proof fn lemma_parse_list_sound<T: Wire>(s: Seq<u8>)
    ensures
        parse_list::<T>(s) matches Ok((xs, n)) ==> n <= s.len() && all_canonical::<T>(xs)
            && xs.len() <= u64::MAX,
{
    lemma_parse_varint_len(s);
    if let Ok((count, n)) = parse_varint(s) {
        lemma_parse_seq_sound::<T>(s.skip(n as int), count as nat);
    }
}

/// Appends the wire forms of `items`, in order.
pub fn encode_seq<T: Wire>(items: &[T], out: &mut Vec<u8>)
    requires
        all_encodable::<T>(seq_view(items@)),
    ensures
        final(out)@ == old(out)@ + wire_seq::<T>(seq_view(items@)),
{
    let ghost start = out@;
    let ghost models = seq_view(items@);
    let mut i: usize = 0;
    assert(models.take(0) =~= Seq::<T::V>::empty());
    while i < items.len()
        invariant
            i <= items@.len(),
            models == seq_view(items@),
            all_encodable::<T>(models),
            out@ == start + wire_seq::<T>(models.take(i as int)),
        decreases items@.len() - i,
    {
        assert(T::encodable(models[i as int]));
        items[i].consensus_encode(out);
        proof {
            lemma_wire_seq_push::<T>(models.take(i as int), models[i as int]);
            assert(models.take(i + 1) =~= models.take(i as int).push(models[i as int]));
        }
        i += 1;
    }
    assert(models.take(i as int) =~= models);
}

/// Reads `count` items in a row from the front of `buf`.
pub fn decode_seq<T: Wire>(buf: &[u8], count: u64) -> (r: Result<(Vec<T>, usize), Error>)
    ensures
        r matches Ok((v, n)) ==> parse_seq::<T>(buf@, count as nat) == Ok::<
            (Seq<T::V>, nat),
            Error,
        >((seq_view(v@), n as nat)),
        r matches Err(e) ==> parse_seq::<T>(buf@, count as nat) == Err::<(Seq<T::V>, nat), Error>(
            e,
        ),
{
    let total = buf.len();
    let mut items: Vec<T> = Vec::new();
    let mut pos: usize = 0;
    let mut i: u64 = 0;
    assert(seq_view(items@) =~= Seq::<T::V>::empty());
    assert(buf@.skip(0) =~= buf@);
    while i < count
        invariant
            i <= count,
            pos <= buf@.len() == total,
            parse_seq::<T>(buf@, count as nat) == prepend(
                seq_view(items@),
                pos as nat,
                parse_seq::<T>(buf@.skip(pos as int), (count - i) as nat),
            ),
        decreases count - i,
    {
        let rest = tail(buf, pos);
        let ghost before = seq_view(items@);
        match T::consensus_decode(rest) {
            Err(e) => {
                return Err(e);
            },
            Ok((v, n)) => {
                proof {
                    T::lemma_parse_sound(rest@);
                    assert(rest@.skip(n as int) =~= buf@.skip(pos + n));
                }
                items.push(v);
                pos += n;
                i += 1;
                proof {
                    assert(seq_view(items@) =~= before.push(v@));
                    let r = parse_seq::<T>(buf@.skip(pos as int), (count - i) as nat);
                    if let Ok((xs, k)) = r {
                        assert(before + (seq![v@] + xs) =~= before.push(v@) + xs);
                    }
                }
            },
        }
    }
    assert(seq_view(items@) + Seq::<T::V>::empty() =~= seq_view(items@));
    Ok((items, pos))
}

/// Appends `items` as a list: the count, then the items.
pub fn encode_list<T: Wire>(items: &[T], out: &mut Vec<u8>)
    requires
        all_encodable::<T>(seq_view(items@)),
    ensures
        final(out)@ == old(out)@ + wire_list::<T>(seq_view(items@)),
{
    put_varint(out, items.len() as u64);
    encode_seq(items, out);
}

/// Reads a list from the front of `buf`.
pub fn decode_list<T: Wire>(buf: &[u8]) -> (r: Result<(Vec<T>, usize), Error>)
    ensures
        r matches Ok((v, n)) ==> parse_list::<T>(buf@) == Ok::<(Seq<T::V>, nat), Error>(
            (seq_view(v@), n as nat),
        ),
        r matches Err(e) ==> parse_list::<T>(buf@) == Err::<(Seq<T::V>, nat), Error>(e),
{
    let total = buf.len();
    let (count, n) = get_varint(buf)?;
    let rest = tail(buf, n);
    let (items, k) = decode_seq::<T>(rest, count)?;
    proof {
        lemma_parse_seq_sound::<T>(rest@, count as nat);
        assert(n + k <= total);
    }
    Ok((items, n + k))
}

/// Reads one value that must fill `s` to its end.
#[verifier::opaque]
pub open spec fn parse_exact<T: Wire>(s: Seq<u8>) -> Result<T::V, Error> {
    match T::parse(s) {
        Err(e) => Err(e),
        Ok((m, n)) => if n == s.len() {
            Ok(m)
        } else {
            Err(Error::TrailingBytes)
        },
    }
}

/// A canonical model reads back from exactly its wire form.
pub proof fn lemma_exact_roundtrip<T: Wire>(m: T::V)
    requires
        T::canonical(m),
    ensures
        parse_exact::<T>(T::wire(m)) == Ok::<T::V, Error>(m),
{
    reveal(parse_exact);
    T::lemma_roundtrip(m, Seq::empty());
    assert(T::wire(m) + Seq::<u8>::empty() =~= T::wire(m));
}

/// What is read from exactly a byte string is canonical.
pub proof fn lemma_parse_exact_sound<T: Wire>(s: Seq<u8>)
    ensures
        parse_exact::<T>(s) matches Ok(m) ==> T::canonical(m),
{
    reveal(parse_exact);
    T::lemma_parse_sound(s);
}

/// The wire form of `value` as a vector of its own.
pub fn serialize<T: Wire>(value: &T) -> (bytes: Vec<u8>)
    requires
        T::encodable(value@),
    ensures
        bytes@ == T::wire(value@),
{
    let mut bytes: Vec<u8> = Vec::new();
    value.consensus_encode(&mut bytes);
    assert(Seq::<u8>::empty() + T::wire(value@) =~= T::wire(value@));
    bytes
}

/// Reads one value from the front of `bytes` and tells how many bytes it took.
pub fn deserialize_partial<T: Wire>(bytes: &[u8]) -> (r: Result<(T, usize), Error>)
    ensures
        r matches Ok((v, n)) ==> T::parse(bytes@) == Ok::<(T::V, nat), Error>((v@, n as nat)),
        r matches Err(e) ==> T::parse(bytes@) == Err::<(T::V, nat), Error>(e),
{
    T::consensus_decode(bytes)
}

/// Reads one value that must fill `bytes` to the end: bytes that are left
/// over are an error.
pub fn deserialize<T: Wire>(bytes: &[u8]) -> (r: Result<T, Error>)
    ensures
        r matches Ok(v) ==> parse_exact::<T>(bytes@) == Ok::<T::V, Error>(v@),
        r matches Err(e) ==> parse_exact::<T>(bytes@) == Err::<T::V, Error>(e),
{
    reveal(parse_exact);
    let (value, n) = T::consensus_decode(bytes)?;
    if n == bytes.len() {
        Ok(value)
    } else {
        Err(Error::TrailingBytes)
    }
}

} // verus!
