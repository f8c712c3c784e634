//! Exchange rates between currencies and fiat money.

use vstd::prelude::*;
use crate::currency::{Currency, Fiat};
use crate::error::Error;
use crate::fields::LengthVec;
use crate::primitives::put_u64_le;
use crate::wire::{encode_list, seq_view, Wire};

verus! {

/// A fiat value with two decimals after the point: `bits` counts
/// hundredths, so `bits == 6500323` stands for 65003.23.
#[derive(Clone, Copy, PartialEq, Eq, PartialOrd, Ord, Debug, Hash, Structural)]
pub struct Rate {
    pub bits: u64,
}

/// A request for the rates of one currency in several fiat currencies.
#[derive(Clone, PartialEq, Eq, PartialOrd, Ord, Debug, Hash)]
pub struct RateReq {
    pub currency: Currency,
    pub fiats: Vec<Fiat>,
}

/// The price of a currency in one fiat currency.
#[derive(Clone, PartialEq, Eq, PartialOrd, Ord, Debug, Hash)]
pub struct FiatRate {
    pub fiat: Fiat,
    pub rate: Rate,
}

/// The rates of one currency.
#[derive(Clone, PartialEq, Eq, PartialOrd, Ord, Debug, Hash)]
pub struct RateResp {
    pub currency: Currency,
    pub rates: Vec<FiatRate>,
}

/// A rate request as contracts see it.
pub struct RateReqModel {
    pub currency: Currency,
    pub fiats: Seq<Fiat>,
}

/// The rates of a currency as contracts see them.
pub struct RateRespModel {
    pub currency: Currency,
    pub rates: Seq<FiatRate>,
}

impl Rate {
    /// The rate of `bits` hundredths.
    pub fn new(bits: u64) -> (r: Rate)
        ensures
            r.bits == bits,
    {
        Rate { bits }
    }
}

impl View for Rate {
    type V = Rate;

    open spec fn view(&self) -> Rate {
        *self
    }
}

impl View for FiatRate {
    type V = FiatRate;

    open spec fn view(&self) -> FiatRate {
        *self
    }
}

impl View for RateReq {
    type V = RateReqModel;

    open spec fn view(&self) -> RateReqModel {
        RateReqModel { currency: self.currency, fiats: seq_view(self.fiats@) }
    }
}

impl View for RateResp {
    type V = RateRespModel;

    open spec fn view(&self) -> RateRespModel {
        RateRespModel { currency: self.currency, rates: seq_view(self.rates@) }
    }
}

/// The fields of a fiat rate in wire order: the fiat currency, then the
/// hundredths in eight bytes.
pub type FiatRateFields = (Fiat, u64);

/// The fields of a rate request in wire order.
pub type RateReqFields = (Currency, LengthVec<Fiat>);

/// The fields of a rate response in wire order.
pub type RateRespFields = (Currency, LengthVec<FiatRate>);

impl FiatRate {
    /// The fields in wire order.
    pub open spec fn fields(self) -> (Fiat, u64) {
        (self.fiat, self.rate.bits)
    }

    /// The value that the fields make up.
    pub open spec fn of_fields(f: (Fiat, u64)) -> FiatRate {
        FiatRate { fiat: f.0, rate: Rate { bits: f.1 } }
    }
}

impl RateReqModel {
    /// The fields in wire order.
    pub open spec fn fields(self) -> (Currency, Seq<Fiat>) {
        (self.currency, self.fiats)
    }

    /// The value that the fields make up.
    pub open spec fn of_fields(f: (Currency, Seq<Fiat>)) -> RateReqModel {
        RateReqModel { currency: f.0, fiats: f.1 }
    }
}

impl RateRespModel {
    /// The fields in wire order.
    pub open spec fn fields(self) -> (Currency, Seq<FiatRate>) {
        (self.currency, self.rates)
    }

    /// The value that the fields make up.
    pub open spec fn of_fields(f: (Currency, Seq<FiatRate>)) -> RateRespModel {
        RateRespModel { currency: f.0, rates: f.1 }
    }
}

impl Wire for FiatRate {
    open spec fn canonical(m: FiatRate) -> bool {
        m.fiat.normal()
    }

    open spec fn encodable(m: FiatRate) -> bool {
        true
    }

    open spec fn wire(m: FiatRate) -> Seq<u8> {
        FiatRateFields::wire(m.fields())
    }

    open spec fn parse(s: Seq<u8>) -> Result<(FiatRate, nat), Error> {
        match FiatRateFields::parse(s) {
            Err(e) => Err(e),
            Ok((f, n)) => Ok((FiatRate::of_fields(f), n)),
        }
    }

    fn consensus_encode(&self, out: &mut Vec<u8>) {
        self.fiat.consensus_encode(out);
        put_u64_le(out, self.rate.bits);
    }

    fn consensus_decode(buf: &[u8]) -> (r: Result<(FiatRate, usize), Error>) {
        let ((fiat, bits), n) = FiatRateFields::consensus_decode(buf)?;
        Ok((FiatRate { fiat, rate: Rate::new(bits) }, n))
    }

    proof fn lemma_parse_sound(s: Seq<u8>) {
        FiatRateFields::lemma_parse_sound(s);
    }

    proof fn lemma_roundtrip(m: FiatRate, rest: Seq<u8>) {
        FiatRateFields::lemma_roundtrip(m.fields(), rest);
    }
}

impl Wire for RateReq {
    open spec fn canonical(m: RateReqModel) -> bool {
        RateReqFields::canonical(m.fields())
    }

    open spec fn encodable(m: RateReqModel) -> bool {
        true
    }

    open spec fn wire(m: RateReqModel) -> Seq<u8> {
        RateReqFields::wire(m.fields())
    }

    open spec fn parse(s: Seq<u8>) -> Result<(RateReqModel, nat), Error> {
        match RateReqFields::parse(s) {
            Err(e) => Err(e),
            Ok((f, n)) => Ok((RateReqModel::of_fields(f), n)),
        }
    }

    fn consensus_encode(&self, out: &mut Vec<u8>) {
        self.currency.consensus_encode(out);
        encode_list(self.fiats.as_slice(), out);
    }

    fn consensus_decode(buf: &[u8]) -> (r: Result<(RateReq, usize), Error>) {
        let ((currency, fiats), n) = RateReqFields::consensus_decode(buf)?;
        Ok((RateReq { currency, fiats: fiats.0 }, n))
    }

    proof fn lemma_parse_sound(s: Seq<u8>) {
        RateReqFields::lemma_parse_sound(s);
    }

    proof fn lemma_roundtrip(m: RateReqModel, rest: Seq<u8>) {
        RateReqFields::lemma_roundtrip(m.fields(), rest);
    }
}

impl Wire for RateResp {
    open spec fn canonical(m: RateRespModel) -> bool {
        RateRespFields::canonical(m.fields())
    }

    open spec fn encodable(m: RateRespModel) -> bool {
        true
    }

    open spec fn wire(m: RateRespModel) -> Seq<u8> {
        RateRespFields::wire(m.fields())
    }

    open spec fn parse(s: Seq<u8>) -> Result<(RateRespModel, nat), Error> {
        match RateRespFields::parse(s) {
            Err(e) => Err(e),
            Ok((f, n)) => Ok((RateRespModel::of_fields(f), n)),
        }
    }

    fn consensus_encode(&self, out: &mut Vec<u8>) {
        self.currency.consensus_encode(out);
        encode_list(self.rates.as_slice(), out);
    }

    fn consensus_decode(buf: &[u8]) -> (r: Result<(RateResp, usize), Error>) {
        let ((currency, rates), n) = RateRespFields::consensus_decode(buf)?;
        Ok((RateResp { currency, rates: rates.0 }, n))
    }

    proof fn lemma_parse_sound(s: Seq<u8>) {
        RateRespFields::lemma_parse_sound(s);
    }

    proof fn lemma_roundtrip(m: RateRespModel, rest: Seq<u8>) {
        RateRespFields::lemma_roundtrip(m.fields(), rest);
    }
}

} // verus!
