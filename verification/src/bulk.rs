//! Bulk responses: many items behind one compressed blob.
//!
//! A bulk payload is a head field, the item count in the clear, and then,
//! to the end of the payload, the gzip stream of the items' wire forms put
//! one after the other. Nothing bounds the blob but the payload itself.

use vstd::prelude::*;
use crate::compress::{blob_of, compress_bytes, decompress_bytes, gunzip_of, gzip_of, gzip_round_trip};
use crate::currency::Currency;
use crate::error::Error;
use crate::fields::VarInt;
use crate::filters::{Filter, FilterModel, MemFilter, TxPrefix};
use crate::primitives::{low32, low32_of, put_bytes, put_varint, tail, varint_wire};
use crate::wire::{all_canonical, all_encodable, decode_seq, encode_seq, parse_seq, seq_view, wire_seq, Wire, lemma_parse_seq_sound, lemma_seq_roundtrip};

verus! {

/// The filters of a run of blocks of one currency.
#[derive(Clone, PartialEq, Eq, PartialOrd, Ord, Debug, Hash)]
pub struct FiltersResp {
    pub currency: Currency,
    pub filters: Vec<Filter>,
}

/// The mempool transactions that share a prefix, each as raw bytes.
#[derive(Clone, PartialEq, Eq, PartialOrd, Ord, Debug, Hash)]
pub struct MempoolChunkResp {
    pub prefix: TxPrefix,
    pub txs: Vec<Vec<u8>>,
}

/// A filters response as contracts see it.
pub struct FiltersRespModel {
    pub currency: Currency,
    pub filters: Seq<FilterModel>,
}

/// A mempool chunk as contracts see it.
pub struct MempoolChunkRespModel {
    pub prefix: Seq<u8>,
    pub txs: Seq<Seq<u8>>,
}

impl View for FiltersResp {
    type V = FiltersRespModel;

    open spec fn view(&self) -> FiltersRespModel {
        FiltersRespModel { currency: self.currency, filters: seq_view(self.filters@) }
    }
}

impl View for MempoolChunkResp {
    type V = MempoolChunkRespModel;

    open spec fn view(&self) -> MempoolChunkRespModel {
        MempoolChunkRespModel { prefix: self.prefix@, txs: seq_view(self.txs@) }
    }
}

/// The count that a reader goes by: some bulk payloads keep only the low 32
/// bits of the count field.
pub open spec fn count_read(count: u64, narrow: bool) -> u64 {
    if narrow {
        low32(count) as u64
    } else {
        count
    }
}

/// The largest count that a reader gets back as it was written.
pub open spec fn count_limit(narrow: bool) -> nat {
    if narrow {
        u32::MAX as nat
    } else {
        u64::MAX as nat
    }
}

/// The encoder writes a gzip stream for the wire forms of `items`.
pub open spec fn compressible<T: Wire>(items: Seq<T::V>) -> bool {
    gzip_of(wire_seq::<T>(items)) is Some
}

/// A bulk payload: the head, the item count, and the compressed items. It
/// says nothing of items that are not [`compressible`].
pub open spec fn wire_bulk<H: Wire, T: Wire>(head: H::V, items: Seq<T::V>) -> Seq<u8> {
    H::wire(head) + varint_wire(items.len() as u64) + blob_of(wire_seq::<T>(items))
}

/// Reads `count` items from a decompressed buffer. Bytes after the last
/// item are let pass.
pub open spec fn parse_items<T: Wire>(raw: Seq<u8>, count: nat) -> Result<Seq<T::V>, Error> {
    match parse_seq::<T>(raw, count) {
        Err(e) => Err(e),
        Ok((items, _)) => Ok(items),
    }
}

/// Decompresses `blob` and reads `count` items from what comes out.
pub open spec fn parse_blob<T: Wire>(blob: Seq<u8>, count: nat) -> Result<Seq<T::V>, Error> {
    match gunzip_of(blob) {
        None => Err(Error::CompressionFailure),
        Some(raw) => parse_items::<T>(raw, count),
    }
}

/// Reads a bulk payload: the head, the count, and as the blob all that is
/// left of `s`.
#[verifier::opaque]
pub open spec fn parse_bulk<H: Wire, T: Wire>(s: Seq<u8>, narrow: bool) -> Result<
    (H::V, Seq<T::V>),
    Error,
> {
    match <(H, VarInt)>::parse(s) {
        Err(e) => Err(e),
        Ok(((head, count), n)) => match parse_blob::<T>(
            s.skip(n as int),
            count_read(count, narrow) as nat,
        ) {
            Err(e) => Err(e),
            Ok(items) => Ok((head, items)),
        },
    }
}

/// The gzip layer compresses the wire forms of `items` and gives them back
/// when it is handed their compressed form.
pub open spec fn inflates<T: Wire>(items: Seq<T::V>) -> bool {
    gzip_round_trip(wire_seq::<T>(items))
}

/// A bulk payload of canonical parts reads back as what was written,
/// provided that the gzip layer gives the compressed items back.
pub proof fn lemma_bulk_roundtrip<H: Wire, T: Wire>(head: H::V, items: Seq<T::V>, narrow: bool)
    requires
        H::canonical(head),
        all_canonical::<T>(items),
        items.len() <= count_limit(narrow),
        inflates::<T>(items),
    ensures
        parse_bulk::<H, T>(wire_bulk::<H, T>(head, items), narrow) == Ok::<
            (H::V, Seq<T::V>),
            Error,
        >((head, items)),
{
    reveal(parse_bulk);
    let count = items.len() as u64;
    let raw = wire_seq::<T>(items);
    let blob = blob_of(raw);
    let s = wire_bulk::<H, T>(head, items);
    let front = <(H, VarInt)>::wire((head, count));
    <(H, VarInt)>::lemma_roundtrip((head, count), blob);
    assert(s =~= front + blob);
    assert(s.skip(front.len() as int) =~= blob);
    lemma_seq_roundtrip::<T>(items, Seq::empty());
    assert(raw + Seq::<u8>::empty() =~= raw);
}

/// What is read from a bulk payload is canonical: the head, every item,
/// and the number of items.
pub proof fn lemma_parse_bulk_sound<H: Wire, T: Wire>(s: Seq<u8>, narrow: bool)
    ensures
        parse_bulk::<H, T>(s, narrow) matches Ok((head, items)) ==> H::canonical(head)
            && all_canonical::<T>(items) && items.len() <= count_limit(narrow),
{
    reveal(parse_bulk);
    <(H, VarInt)>::lemma_parse_sound(s);
    if let Ok(((head, count), n)) = <(H, VarInt)>::parse(s) {
        if let Some(raw) = gunzip_of(s.skip(n as int)) {
            lemma_parse_seq_sound::<T>(raw, count_read(count, narrow) as nat);
        }
    }
}

/// The wire forms of `items` one after the other: what gets compressed.
pub fn pack_items<T: Wire>(items: &[T]) -> (raw: Vec<u8>)
    requires
        all_encodable::<T>(seq_view(items@)),
    ensures
        raw@ == wire_seq::<T>(seq_view(items@)),
{
    let mut raw: Vec<u8> = Vec::new();
    encode_seq(items, &mut raw);
    assert(Seq::<u8>::empty() + wire_seq::<T>(seq_view(items@)) =~= wire_seq::<T>(
        seq_view(items@),
    ));
    raw
}

/// Reads `count` items from a decompressed buffer.
pub fn unpack_items<T: Wire>(raw: &[u8], count: u64) -> (r: Result<Vec<T>, Error>)
    ensures
        r matches Ok(items) ==> parse_items::<T>(raw@, count as nat) == Ok::<Seq<T::V>, Error>(
            seq_view(items@),
        ),
        r matches Err(e) ==> parse_items::<T>(raw@, count as nat) == Err::<Seq<T::V>, Error>(e),
{
    let (items, _) = decode_seq::<T>(raw, count)?;
    Ok(items)
}

/// Puts a bulk payload together from its head, its count and a blob that
/// has been compressed already.
pub fn frame_bulk<H: Wire>(head: &H, count: u64, blob: &[u8]) -> (payload: Vec<u8>)
    requires
        H::encodable(head@),
    ensures
        payload@ == H::wire(head@) + varint_wire(count) + blob@,
{
    let mut payload: Vec<u8> = Vec::new();
    head.consensus_encode(&mut payload);
    put_varint(&mut payload, count);
    put_bytes(&mut payload, blob);
    payload
}

/// Writes a bulk payload. It fails exactly where the items are not
/// [`compressible`], and then with `CompressionFailure`. A payload that
/// comes back is the wire form, and the gzip layer gives the items in it
/// back.
pub fn encode_bulk<H: Wire, T: Wire>(head: &H, items: &[T]) -> (r: Result<Vec<u8>, Error>)
    requires
        H::encodable(head@),
        all_encodable::<T>(seq_view(items@)),
    ensures
        r matches Ok(payload) ==> payload@ == wire_bulk::<H, T>(head@, seq_view(items@))
            && inflates::<T>(seq_view(items@)),
        r matches Err(e) ==> e == Error::CompressionFailure && !compressible::<T>(
            seq_view(items@),
        ),
{
    let raw = pack_items(items);
    let blob = compress_bytes(raw.as_slice())?;
    Ok(frame_bulk(head, items.len() as u64, blob.as_slice()))
}

/// Reads a bulk payload.
pub fn decode_bulk<H: Wire, T: Wire>(buf: &[u8], narrow: bool) -> (r: Result<(H, Vec<T>), Error>)
    ensures
        r matches Ok((head, items)) ==> parse_bulk::<H, T>(buf@, narrow) == Ok::<
            (H::V, Seq<T::V>),
            Error,
        >((head@, seq_view(items@))),
        r matches Err(e) ==> parse_bulk::<H, T>(buf@, narrow) == Err::<(H::V, Seq<T::V>), Error>(
            e,
        ),
{
    reveal(parse_bulk);
    let ((head, count), n) = <(H, VarInt)>::consensus_decode(buf)?;
    proof {
        <(H, VarInt)>::lemma_parse_sound(buf@);
    }
    let count = if narrow {
        low32_of(count.0) as u64
    } else {
        count.0
    };
    let raw = decompress_bytes(tail(buf, n))?;
    let items = unpack_items::<T>(raw.as_slice(), count)?;
    Ok((head, items))
}

impl FiltersResp {
    /// The currency is in normal form and every filter is canonical.
    pub open spec fn canonical(m: FiltersRespModel) -> bool {
        m.currency.normal() && all_canonical::<Filter>(m.filters) && m.filters.len() <= u64::MAX
    }

    /// The currency, the number of filters, and the compressed filters. It
    /// says nothing of filters that the encoder writes no stream for.
    pub open spec fn wire(m: FiltersRespModel) -> Seq<u8> {
        wire_bulk::<Currency, Filter>(m.currency, m.filters)
    }

    /// Reads a payload to its end.
    pub open spec fn parse(s: Seq<u8>) -> Result<FiltersRespModel, Error> {
        match parse_bulk::<Currency, Filter>(s, false) {
            Err(e) => Err(e),
            Ok((currency, filters)) => Ok(FiltersRespModel { currency, filters }),
        }
    }

    /// The gzip stream of the filters' wire forms, one after the other; or
    /// `CompressionFailure` exactly where the encoder writes none.
    pub fn compress(filters: &[Filter]) -> (r: Result<Vec<u8>, Error>)
        ensures
            r matches Ok(blob) ==> gzip_of(wire_seq::<Filter>(seq_view(filters@))) == Some(blob@)
                && inflates::<Filter>(seq_view(filters@)),
            r matches Err(e) ==> e == Error::CompressionFailure && gzip_of(
                wire_seq::<Filter>(seq_view(filters@)),
            ) is None,
    {
        let raw = pack_items(filters);
        compress_bytes(raw.as_slice())
    }

    /// The bytes that a gzip stream holds.
    pub fn decompress(buf: &[u8]) -> (r: Result<Vec<u8>, Error>)
        ensures
            r matches Ok(data) ==> gunzip_of(buf@) == Some(data@),
            r matches Err(e) ==> e == Error::CompressionFailure && gunzip_of(buf@) is None,
    {
        decompress_bytes(buf)
    }

    /// What is read from a payload is canonical.
    pub proof fn lemma_parse_sound(s: Seq<u8>)
        ensures
            FiltersResp::parse(s) matches Ok(m) ==> FiltersResp::canonical(m),
    {
        lemma_parse_bulk_sound::<Currency, Filter>(s, false);
    }

    /// The gzip layer gives the filters of `m` back.
    pub open spec fn inflates(m: FiltersRespModel) -> bool {
        inflates::<Filter>(m.filters)
    }

    /// A canonical response reads back from its payload, provided that the
    /// gzip layer gives its filters back.
    pub proof fn lemma_roundtrip(m: FiltersRespModel)
        requires
            FiltersResp::canonical(m),
            FiltersResp::inflates(m),
        ensures
            FiltersResp::parse(FiltersResp::wire(m)) == Ok::<FiltersRespModel, Error>(m),
    {
        lemma_bulk_roundtrip::<Currency, Filter>(m.currency, m.filters, false);
    }

    /// Writes the payload. It fails exactly where the encoder writes no
    /// gzip stream for the filters, and then with `CompressionFailure`.
    /// A payload that comes back is the wire form; the gzip layer gives the
    /// filters in it back, so that a canonical response reads back from it.
    pub fn consensus_encode(&self) -> (r: Result<Vec<u8>, Error>)
        ensures
            r matches Ok(payload) ==> {
                &&& payload@ == FiltersResp::wire(self@)
                &&& FiltersResp::inflates(self@)
                &&& FiltersResp::canonical(self@) ==> FiltersResp::parse(payload@) == Ok::<
                    FiltersRespModel,
                    Error,
                >(self@)
            },
            r matches Err(e) ==> e == Error::CompressionFailure && gzip_of(
                wire_seq::<Filter>(self@.filters),
            ) is None,
    {
        let payload = encode_bulk::<Currency, Filter>(&self.currency, self.filters.as_slice())?;
        proof {
            if FiltersResp::canonical(self@) {
                FiltersResp::lemma_roundtrip(self@);
            }
        }
        Ok(payload)
    }

    /// Reads the payload to its end.
    pub fn consensus_decode(buf: &[u8]) -> (r: Result<FiltersResp, Error>)
        ensures
            r matches Ok(v) ==> FiltersResp::parse(buf@) == Ok::<FiltersRespModel, Error>(v@),
            r matches Err(e) ==> FiltersResp::parse(buf@) == Err::<FiltersRespModel, Error>(e),
    {
        let (currency, filters) = decode_bulk::<Currency, Filter>(buf, false)?;
        Ok(FiltersResp { currency, filters })
    }
}

impl MempoolChunkResp {
    /// The number of transactions is one that a reader gets back, and none
    /// is too long for its length field.
    pub open spec fn canonical(m: MempoolChunkRespModel) -> bool {
        m.prefix.len() == 2 && all_canonical::<Vec<u8>>(m.txs) && m.txs.len() <= u32::MAX
    }

    /// The prefix, the number of transactions, and the compressed
    /// transactions, each a byte string. It says nothing of transactions
    /// that the encoder writes no stream for.
    pub open spec fn wire(m: MempoolChunkRespModel) -> Seq<u8> {
        wire_bulk::<TxPrefix, Vec<u8>>(m.prefix, m.txs)
    }

    /// Reads a payload to its end. Of the count the low 32 bits are kept.
    pub open spec fn parse(s: Seq<u8>) -> Result<MempoolChunkRespModel, Error> {
        match parse_bulk::<TxPrefix, Vec<u8>>(s, true) {
            Err(e) => Err(e),
            Ok((prefix, txs)) => Ok(MempoolChunkRespModel { prefix, txs }),
        }
    }

    /// The gzip stream of the transactions, each as a byte string, one
    /// after the other; or `CompressionFailure` exactly where the encoder
    /// writes none.
    pub fn compress(txs: &[Vec<u8>]) -> (r: Result<Vec<u8>, Error>)
        ensures
            r matches Ok(blob) ==> gzip_of(wire_seq::<Vec<u8>>(seq_view(txs@))) == Some(blob@)
                && inflates::<Vec<u8>>(seq_view(txs@)),
            r matches Err(e) ==> e == Error::CompressionFailure && gzip_of(
                wire_seq::<Vec<u8>>(seq_view(txs@)),
            ) is None,
    {
        let raw = pack_items(txs);
        compress_bytes(raw.as_slice())
    }

    /// The bytes that a gzip stream holds.
    pub fn decompress(buf: &[u8]) -> (r: Result<Vec<u8>, Error>)
        ensures
            r matches Ok(data) ==> gunzip_of(buf@) == Some(data@),
            r matches Err(e) ==> e == Error::CompressionFailure && gunzip_of(buf@) is None,
    {
        decompress_bytes(buf)
    }

    /// What is read from a payload is canonical.
    pub proof fn lemma_parse_sound(s: Seq<u8>)
        ensures
            MempoolChunkResp::parse(s) matches Ok(m) ==> MempoolChunkResp::canonical(m),
    {
        lemma_parse_bulk_sound::<TxPrefix, Vec<u8>>(s, true);
    }

    /// The gzip layer gives the transactions of `m` back.
    pub open spec fn inflates(m: MempoolChunkRespModel) -> bool {
        inflates::<Vec<u8>>(m.txs)
    }

    /// A canonical chunk reads back from its payload, provided that the
    /// gzip layer gives its transactions back.
    pub proof fn lemma_roundtrip(m: MempoolChunkRespModel)
        requires
            MempoolChunkResp::canonical(m),
            MempoolChunkResp::inflates(m),
        ensures
            MempoolChunkResp::parse(MempoolChunkResp::wire(m)) == Ok::<
                MempoolChunkRespModel,
                Error,
            >(m),
    {
        lemma_bulk_roundtrip::<TxPrefix, Vec<u8>>(m.prefix, m.txs, true);
    }

    /// Writes the payload. It fails exactly where the encoder writes no
    /// gzip stream for the transactions, and then with
    /// `CompressionFailure`. A payload that comes back is the wire form;
    /// the gzip layer gives the transactions in it back, so that a
    /// canonical chunk reads back from it.
    pub fn consensus_encode(&self) -> (r: Result<Vec<u8>, Error>)
        ensures
            r matches Ok(payload) ==> {
                &&& payload@ == MempoolChunkResp::wire(self@)
                &&& MempoolChunkResp::inflates(self@)
                &&& MempoolChunkResp::canonical(self@) ==> MempoolChunkResp::parse(payload@)
                    == Ok::<MempoolChunkRespModel, Error>(self@)
            },
            r matches Err(e) ==> e == Error::CompressionFailure && gzip_of(
                wire_seq::<Vec<u8>>(self@.txs),
            ) is None,
    {
        let payload = encode_bulk::<TxPrefix, Vec<u8>>(&self.prefix, self.txs.as_slice())?;
        proof {
            if MempoolChunkResp::canonical(self@) {
                MempoolChunkResp::lemma_roundtrip(self@);
            }
        }
        Ok(payload)
    }

    /// Reads the payload to its end.
    pub fn consensus_decode(buf: &[u8]) -> (r: Result<MempoolChunkResp, Error>)
        ensures
            r matches Ok(v) ==> MempoolChunkResp::parse(buf@) == Ok::<MempoolChunkRespModel, Error>(
                v@,
            ),
            r matches Err(e) ==> MempoolChunkResp::parse(buf@) == Err::<
                MempoolChunkRespModel,
                Error,
            >(e),
    {
        let (prefix, txs) = decode_bulk::<TxPrefix, Vec<u8>>(buf, true)?;
        Ok(MempoolChunkResp { prefix, txs })
    }
}

impl MemFilter {
    /// The gzip stream of the filter's bytes, or `CompressionFailure`
    /// exactly where the encoder writes none.
    pub fn compress(&self) -> (r: Result<Vec<u8>, Error>)
        ensures
            r matches Ok(blob) ==> gzip_of(self@) == Some(blob@) && gunzip_of(blob@) == Some(
                self@,
            ),
            r matches Err(e) ==> e == Error::CompressionFailure && gzip_of(self@) is None,
    {
        compress_bytes(self.0.as_slice())
    }

    /// The filter whose bytes a gzip stream holds.
    pub fn decompress(buf: &[u8]) -> (r: Result<MemFilter, Error>)
        ensures
            r matches Ok(filter) ==> gunzip_of(buf@) == Some(filter@),
            r matches Err(e) ==> e == Error::CompressionFailure && gunzip_of(buf@) is None,
    {
        let bytes = decompress_bytes(buf)?;
        Ok(MemFilter(bytes))
    }
}

} // verus!
