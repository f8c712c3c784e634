//! Block filters and mempool filters: the requests for them and the items
//! that answer them.

use vstd::prelude::*;
use vstd::slice::slice_to_vec;
use crate::currency::Currency;
use crate::error::Error;
use crate::fields::VarInt;
use crate::primitives::{low32, low32_of, put_bytes, put_varint};
use crate::wire::Wire;

verus! {

/// The length in bytes of a block identifier.
pub const BLOCK_ID_SIZE: usize = 32;

/// A request for the filters of `amount` blocks from height `start` on.
#[derive(Clone, PartialEq, Eq, PartialOrd, Ord, Debug, Hash)]
pub struct FiltersReq {
    pub currency: Currency,
    pub start: u64,
    pub amount: u32,
}

/// The filter of one block. The block identifier goes on the wire as it
/// is, and a reader takes exactly 32 bytes for it.
#[derive(Clone, PartialEq, Eq, PartialOrd, Ord, Debug, Hash)]
pub struct Filter {
    pub block_id: Vec<u8>,
    pub filter: Vec<u8>,
}

/// The announcement of a new block's filter.
#[derive(Clone, PartialEq, Eq, PartialOrd, Ord, Debug, Hash)]
pub struct FilterEvent {
    pub currency: Currency,
    pub height: u64,
    pub block_id: Vec<u8>,
    pub filter: Vec<u8>,
}

/// A filter over the mempool, as opaque bytes.
#[derive(Clone, PartialEq, Eq, PartialOrd, Ord, Debug, Hash)]
pub struct MemFilter(pub Vec<u8>);

/// The first two bytes of a transaction identifier.
#[derive(Clone, PartialEq, Eq, PartialOrd, Ord, Debug, Hash)]
pub struct TxPrefix(pub [u8; 2]);

/// The mempool filter of the transactions with one prefix.
#[derive(Clone, PartialEq, Eq, PartialOrd, Ord, Debug, Hash)]
pub struct FilterPrefixPair {
    pub prefix: TxPrefix,
    pub filter: MemFilter,
}

/// A filter as contracts see it.
pub struct FilterModel {
    pub block_id: Seq<u8>,
    pub filter: Seq<u8>,
}

/// A filter event as contracts see it.
pub struct FilterEventModel {
    pub currency: Currency,
    pub height: u64,
    pub block_id: Seq<u8>,
    pub filter: Seq<u8>,
}

/// A prefix and its filter as contracts see them.
pub struct FilterPrefixPairModel {
    pub prefix: Seq<u8>,
    pub filter: Seq<u8>,
}

impl View for FiltersReq {
    type V = FiltersReq;

    open spec fn view(&self) -> FiltersReq {
        *self
    }
}

impl View for Filter {
    type V = FilterModel;

    open spec fn view(&self) -> FilterModel {
        FilterModel { block_id: self.block_id@, filter: self.filter@ }
    }
}

impl View for FilterEvent {
    type V = FilterEventModel;

    open spec fn view(&self) -> FilterEventModel {
        FilterEventModel {
            currency: self.currency,
            height: self.height,
            block_id: self.block_id@,
            filter: self.filter@,
        }
    }
}

impl View for MemFilter {
    type V = Seq<u8>;

    open spec fn view(&self) -> Seq<u8> {
        self.0@
    }
}

impl View for TxPrefix {
    type V = Seq<u8>;

    open spec fn view(&self) -> Seq<u8> {
        self.0@
    }
}

impl View for FilterPrefixPair {
    type V = FilterPrefixPairModel;

    open spec fn view(&self) -> FilterPrefixPairModel {
        FilterPrefixPairModel { prefix: self.prefix@, filter: self.filter@ }
    }
}

/// The fields of a filter request in wire order: currency, then start and
/// amount as variable-length integers.
pub type FiltersReqFields = (Currency, (VarInt, VarInt));

/// The fields of a filter in wire order: 32 bytes of block identifier, then
/// the filter as a byte string.
pub type FilterFields = ([u8; 32], Vec<u8>);

/// The fields of a filter event in wire order: currency, height as a
/// variable-length integer, 32 bytes of block identifier, then the filter
/// as a byte string.
pub type FilterEventFields = (Currency, (VarInt, ([u8; 32], Vec<u8>)));

/// The fields of a prefix and its filter in wire order.
pub type FilterPrefixPairFields = ([u8; 2], Vec<u8>);

impl FiltersReq {
    /// The fields in wire order.
    pub open spec fn fields(self) -> (Currency, (u64, u64)) {
        (self.currency, (self.start, self.amount as u64))
    }

    /// Of an amount wider than 32 bits the low 32 bits count.
    pub open spec fn of_fields(f: (Currency, (u64, u64))) -> FiltersReq {
        FiltersReq { currency: f.0, start: f.1.0, amount: low32(f.1.1) }
    }
}

impl FilterModel {
    /// The fields in wire order.
    pub open spec fn fields(self) -> (Seq<u8>, Seq<u8>) {
        (self.block_id, self.filter)
    }

    /// The value that the fields make up.
    pub open spec fn of_fields(f: (Seq<u8>, Seq<u8>)) -> FilterModel {
        FilterModel { block_id: f.0, filter: f.1 }
    }
}

impl FilterEventModel {
    /// The fields in wire order.
    pub open spec fn fields(self) -> (Currency, (u64, (Seq<u8>, Seq<u8>))) {
        (self.currency, (self.height, (self.block_id, self.filter)))
    }

    /// The value that the fields make up.
    pub open spec fn of_fields(f: (Currency, (u64, (Seq<u8>, Seq<u8>)))) -> FilterEventModel {
        FilterEventModel { currency: f.0, height: f.1.0, block_id: f.1.1.0, filter: f.1.1.1 }
    }
}

impl FilterPrefixPairModel {
    /// The fields in wire order.
    pub open spec fn fields(self) -> (Seq<u8>, Seq<u8>) {
        (self.prefix, self.filter)
    }

    /// The value that the fields make up.
    pub open spec fn of_fields(f: (Seq<u8>, Seq<u8>)) -> FilterPrefixPairModel {
        FilterPrefixPairModel { prefix: f.0, filter: f.1 }
    }
}

impl Wire for FiltersReq {
    open spec fn canonical(m: FiltersReq) -> bool {
        m.currency.normal()
    }

    open spec fn encodable(m: FiltersReq) -> bool {
        true
    }

    open spec fn wire(m: FiltersReq) -> Seq<u8> {
        FiltersReqFields::wire(m.fields())
    }

    open spec fn parse(s: Seq<u8>) -> Result<(FiltersReq, nat), Error> {
        match FiltersReqFields::parse(s) {
            Err(e) => Err(e),
            Ok((f, n)) => Ok((FiltersReq::of_fields(f), n)),
        }
    }

    fn consensus_encode(&self, out: &mut Vec<u8>) {
        self.currency.consensus_encode(out);
        put_varint(out, self.start);
        put_varint(out, self.amount as u64);
    }

    fn consensus_decode(buf: &[u8]) -> (r: Result<(FiltersReq, usize), Error>) {
        let ((currency, (start, amount)), n) = FiltersReqFields::consensus_decode(buf)?;
        Ok((FiltersReq { currency, start: start.0, amount: low32_of(amount.0) }, n))
    }

    proof fn lemma_parse_sound(s: Seq<u8>) {
        FiltersReqFields::lemma_parse_sound(s);
    }

    proof fn lemma_roundtrip(m: FiltersReq, rest: Seq<u8>) {
        FiltersReqFields::lemma_roundtrip(m.fields(), rest);
    }
}

impl Wire for Filter {
    /// The block identifier has its 32 bytes, and the filter's length fits
    /// the length field.
    open spec fn canonical(m: FilterModel) -> bool {
        m.block_id.len() == BLOCK_ID_SIZE && m.filter.len() <= u64::MAX
    }

    open spec fn encodable(m: FilterModel) -> bool {
        true
    }

    open spec fn wire(m: FilterModel) -> Seq<u8> {
        FilterFields::wire(m.fields())
    }

    open spec fn parse(s: Seq<u8>) -> Result<(FilterModel, nat), Error> {
        match FilterFields::parse(s) {
            Err(e) => Err(e),
            Ok((f, n)) => Ok((FilterModel::of_fields(f), n)),
        }
    }

    fn consensus_encode(&self, out: &mut Vec<u8>) {
        put_bytes(out, self.block_id.as_slice());
        self.filter.consensus_encode(out);
    }

    fn consensus_decode(buf: &[u8]) -> (r: Result<(Filter, usize), Error>) {
        let ((block_id, filter), n) = FilterFields::consensus_decode(buf)?;
        Ok((Filter { block_id: slice_to_vec(block_id.as_slice()), filter }, n))
    }

    proof fn lemma_parse_sound(s: Seq<u8>) {
        FilterFields::lemma_parse_sound(s);
    }

    proof fn lemma_roundtrip(m: FilterModel, rest: Seq<u8>) {
        FilterFields::lemma_roundtrip(m.fields(), rest);
    }
}

impl Wire for FilterEvent {
    /// The currency is in normal form, the block identifier has its 32
    /// bytes, and the filter's length fits the length field.
    open spec fn canonical(m: FilterEventModel) -> bool {
        m.currency.normal() && m.block_id.len() == BLOCK_ID_SIZE && m.filter.len() <= u64::MAX
    }

    open spec fn encodable(m: FilterEventModel) -> bool {
        true
    }

    open spec fn wire(m: FilterEventModel) -> Seq<u8> {
        FilterEventFields::wire(m.fields())
    }

    open spec fn parse(s: Seq<u8>) -> Result<(FilterEventModel, nat), Error> {
        match FilterEventFields::parse(s) {
            Err(e) => Err(e),
            Ok((f, n)) => Ok((FilterEventModel::of_fields(f), n)),
        }
    }

    fn consensus_encode(&self, out: &mut Vec<u8>) {
        self.currency.consensus_encode(out);
        put_varint(out, self.height);
        put_bytes(out, self.block_id.as_slice());
        self.filter.consensus_encode(out);
    }

    fn consensus_decode(buf: &[u8]) -> (r: Result<(FilterEvent, usize), Error>) {
        let ((currency, (height, (block_id, filter))), n) = FilterEventFields::consensus_decode(
            buf,
        )?;
        Ok(
            (
                FilterEvent {
                    currency,
                    height: height.0,
                    block_id: slice_to_vec(block_id.as_slice()),
                    filter,
                },
                n,
            ),
        )
    }

    proof fn lemma_parse_sound(s: Seq<u8>) {
        FilterEventFields::lemma_parse_sound(s);
    }

    proof fn lemma_roundtrip(m: FilterEventModel, rest: Seq<u8>) {
        FilterEventFields::lemma_roundtrip(m.fields(), rest);
    }
}

/// A mempool filter is a byte string.
impl Wire for MemFilter {
    open spec fn canonical(m: Seq<u8>) -> bool {
        <Vec<u8> as Wire>::canonical(m)
    }

    open spec fn encodable(m: Seq<u8>) -> bool {
        true
    }

    open spec fn wire(m: Seq<u8>) -> Seq<u8> {
        <Vec<u8> as Wire>::wire(m)
    }

    open spec fn parse(s: Seq<u8>) -> Result<(Seq<u8>, nat), Error> {
        <Vec<u8> as Wire>::parse(s)
    }

    fn consensus_encode(&self, out: &mut Vec<u8>) {
        self.0.consensus_encode(out);
    }

    fn consensus_decode(buf: &[u8]) -> (r: Result<(MemFilter, usize), Error>) {
        let (bytes, n) = <Vec<u8> as Wire>::consensus_decode(buf)?;
        Ok((MemFilter(bytes), n))
    }

    proof fn lemma_parse_sound(s: Seq<u8>) {
        <Vec<u8> as Wire>::lemma_parse_sound(s);
    }

    proof fn lemma_roundtrip(m: Seq<u8>, rest: Seq<u8>) {
        <Vec<u8> as Wire>::lemma_roundtrip(m, rest);
    }
}

/// A transaction prefix is its two bytes.
impl Wire for TxPrefix {
    open spec fn canonical(m: Seq<u8>) -> bool {
        <[u8; 2] as Wire>::canonical(m)
    }

    open spec fn encodable(m: Seq<u8>) -> bool {
        true
    }

    open spec fn wire(m: Seq<u8>) -> Seq<u8> {
        <[u8; 2] as Wire>::wire(m)
    }

    open spec fn parse(s: Seq<u8>) -> Result<(Seq<u8>, nat), Error> {
        <[u8; 2] as Wire>::parse(s)
    }

    fn consensus_encode(&self, out: &mut Vec<u8>) {
        self.0.consensus_encode(out);
    }

    fn consensus_decode(buf: &[u8]) -> (r: Result<(TxPrefix, usize), Error>) {
        let (bytes, n) = <[u8; 2] as Wire>::consensus_decode(buf)?;
        Ok((TxPrefix(bytes), n))
    }

    proof fn lemma_parse_sound(s: Seq<u8>) {
        <[u8; 2] as Wire>::lemma_parse_sound(s);
    }

    proof fn lemma_roundtrip(m: Seq<u8>, rest: Seq<u8>) {
        <[u8; 2] as Wire>::lemma_roundtrip(m, rest);
    }
}

impl Wire for FilterPrefixPair {
    open spec fn canonical(m: FilterPrefixPairModel) -> bool {
        FilterPrefixPairFields::canonical(m.fields())
    }

    open spec fn encodable(m: FilterPrefixPairModel) -> bool {
        true
    }

    open spec fn wire(m: FilterPrefixPairModel) -> Seq<u8> {
        FilterPrefixPairFields::wire(m.fields())
    }

    open spec fn parse(s: Seq<u8>) -> Result<(FilterPrefixPairModel, nat), Error> {
        match FilterPrefixPairFields::parse(s) {
            Err(e) => Err(e),
            Ok((f, n)) => Ok((FilterPrefixPairModel::of_fields(f), n)),
        }
    }

    fn consensus_encode(&self, out: &mut Vec<u8>) {
        self.prefix.consensus_encode(out);
        self.filter.consensus_encode(out);
    }

    fn consensus_decode(buf: &[u8]) -> (r: Result<(FilterPrefixPair, usize), Error>) {
        let ((prefix, filter), n) = FilterPrefixPairFields::consensus_decode(buf)?;
        Ok((FilterPrefixPair { prefix: TxPrefix(prefix), filter: MemFilter(filter) }, n))
    }

    proof fn lemma_parse_sound(s: Seq<u8>) {
        FilterPrefixPairFields::lemma_parse_sound(s);
    }

    proof fn lemma_roundtrip(m: FilterPrefixPairModel, rest: Seq<u8>) {
        FilterPrefixPairFields::lemma_roundtrip(m.fields(), rest);
    }
}

} // verus!
