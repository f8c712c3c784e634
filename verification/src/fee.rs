//! Fee estimates, per currency.

use vstd::prelude::*;
use crate::currency::Currency;
use crate::error::Error;
use crate::fields::VarInt;
use crate::primitives::{put_varint, tail};
use crate::wire::Wire;

verus! {

/// Fees of Bitcoin and its test network, in satoshi per byte: for each of
/// three speeds a conservative and an economical estimate.
#[derive(Clone, PartialEq, Eq, PartialOrd, Ord, Debug, Hash)]
pub struct FeeBtc {
    pub fast_conserv: u64,
    pub fast_econom: u64,
    pub moderate_conserv: u64,
    pub moderate_econom: u64,
    pub cheap_conserv: u64,
    pub cheap_econom: u64,
}

/// Fees of any other currency, in units per byte, for three speeds.
#[derive(Clone, PartialEq, Eq, PartialOrd, Ord, Debug, Hash)]
pub struct FeeOther {
    pub fast: u64,
    pub moderate: u64,
    pub cheap: u64,
}

/// The fees of one currency. `Btc` is for Bitcoin and its test network
/// only, `Other` for every other currency.
#[derive(PartialEq, Eq, PartialOrd, Ord, Debug, Hash)]
pub enum FeeResp {
    Btc((Currency, FeeBtc)),
    Other((Currency, FeeOther)),
}

impl Clone for FeeResp {
    fn clone(&self) -> (r: FeeResp)
        ensures
            r == *self,
    {
        match self {
            FeeResp::Btc((currency, fee)) => FeeResp::Btc(
                (
                    *currency,
                    FeeBtc {
                        fast_conserv: fee.fast_conserv,
                        fast_econom: fee.fast_econom,
                        moderate_conserv: fee.moderate_conserv,
                        moderate_econom: fee.moderate_econom,
                        cheap_conserv: fee.cheap_conserv,
                        cheap_econom: fee.cheap_econom,
                    },
                ),
            ),
            FeeResp::Other((currency, fee)) => FeeResp::Other(
                (*currency, FeeOther { fast: fee.fast, moderate: fee.moderate, cheap: fee.cheap }),
            ),
        }
    }
}

impl View for FeeBtc {
    type V = FeeBtc;

    open spec fn view(&self) -> FeeBtc {
        *self
    }
}

impl View for FeeOther {
    type V = FeeOther;

    open spec fn view(&self) -> FeeOther {
        *self
    }
}

impl View for FeeResp {
    type V = FeeResp;

    open spec fn view(&self) -> FeeResp {
        *self
    }
}

/// The six estimates in wire order, each a variable-length integer.
pub type FeeBtcFields = (VarInt, (VarInt, (VarInt, (VarInt, (VarInt, VarInt)))));

/// The three estimates in wire order, each a variable-length integer.
pub type FeeOtherFields = (VarInt, (VarInt, VarInt));

impl FeeBtc {
    /// The fields in wire order.
    pub open spec fn fields(self) -> (u64, (u64, (u64, (u64, (u64, u64))))) {
        (
            self.fast_conserv,
            (
                self.fast_econom,
                (self.moderate_conserv, (self.moderate_econom, (self.cheap_conserv, self.cheap_econom))),
            ),
        )
    }

    /// The value that the fields make up.
    pub open spec fn of_fields(f: (u64, (u64, (u64, (u64, (u64, u64)))))) -> FeeBtc {
        FeeBtc {
            fast_conserv: f.0,
            fast_econom: f.1.0,
            moderate_conserv: f.1.1.0,
            moderate_econom: f.1.1.1.0,
            cheap_conserv: f.1.1.1.1.0,
            cheap_econom: f.1.1.1.1.1,
        }
    }
}

impl FeeOther {
    /// The fields in wire order.
    pub open spec fn fields(self) -> (u64, (u64, u64)) {
        (self.fast, (self.moderate, self.cheap))
    }

    /// The value that the fields make up.
    pub open spec fn of_fields(f: (u64, (u64, u64))) -> FeeOther {
        FeeOther { fast: f.0, moderate: f.1.0, cheap: f.1.1 }
    }
}

impl Wire for FeeBtc {
    open spec fn canonical(m: FeeBtc) -> bool {
        true
    }

    open spec fn encodable(m: FeeBtc) -> bool {
        true
    }

    open spec fn wire(m: FeeBtc) -> Seq<u8> {
        FeeBtcFields::wire(m.fields())
    }

    open spec fn parse(s: Seq<u8>) -> Result<(FeeBtc, nat), Error> {
        match FeeBtcFields::parse(s) {
            Err(e) => Err(e),
            Ok((f, n)) => Ok((FeeBtc::of_fields(f), n)),
        }
    }

    fn consensus_encode(&self, out: &mut Vec<u8>) {
        put_varint(out, self.fast_conserv);
        put_varint(out, self.fast_econom);
        put_varint(out, self.moderate_conserv);
        put_varint(out, self.moderate_econom);
        put_varint(out, self.cheap_conserv);
        put_varint(out, self.cheap_econom);
    }

    fn consensus_decode(buf: &[u8]) -> (r: Result<(FeeBtc, usize), Error>) {
        let ((a, (b, (c, (d, (e, f))))), n) = FeeBtcFields::consensus_decode(buf)?;
        Ok(
            (
                FeeBtc {
                    fast_conserv: a.0,
                    fast_econom: b.0,
                    moderate_conserv: c.0,
                    moderate_econom: d.0,
                    cheap_conserv: e.0,
                    cheap_econom: f.0,
                },
                n,
            ),
        )
    }

    proof fn lemma_parse_sound(s: Seq<u8>) {
        FeeBtcFields::lemma_parse_sound(s);
    }

    proof fn lemma_roundtrip(m: FeeBtc, rest: Seq<u8>) {
        FeeBtcFields::lemma_roundtrip(m.fields(), rest);
    }
}

impl Wire for FeeOther {
    open spec fn canonical(m: FeeOther) -> bool {
        true
    }

    open spec fn encodable(m: FeeOther) -> bool {
        true
    }

    open spec fn wire(m: FeeOther) -> Seq<u8> {
        FeeOtherFields::wire(m.fields())
    }

    open spec fn parse(s: Seq<u8>) -> Result<(FeeOther, nat), Error> {
        match FeeOtherFields::parse(s) {
            Err(e) => Err(e),
            Ok((f, n)) => Ok((FeeOther::of_fields(f), n)),
        }
    }

    fn consensus_encode(&self, out: &mut Vec<u8>) {
        put_varint(out, self.fast);
        put_varint(out, self.moderate);
        put_varint(out, self.cheap);
    }

    fn consensus_decode(buf: &[u8]) -> (r: Result<(FeeOther, usize), Error>) {
        let ((a, (b, c)), n) = FeeOtherFields::consensus_decode(buf)?;
        Ok((FeeOther { fast: a.0, moderate: b.0, cheap: c.0 }, n))
    }

    proof fn lemma_parse_sound(s: Seq<u8>) {
        FeeOtherFields::lemma_parse_sound(s);
    }

    proof fn lemma_roundtrip(m: FeeOther, rest: Seq<u8>) {
        FeeOtherFields::lemma_roundtrip(m.fields(), rest);
    }
}

impl FeeResp {
    /// The currency that the fees are of.
    pub open spec fn currency(self) -> Currency {
        match self {
            FeeResp::Btc((currency, _)) => currency,
            FeeResp::Other((currency, _)) => currency,
        }
    }

    /// Bitcoin's fee scheme goes with Bitcoin or its test network only.
    pub open spec fn consistent(self) -> bool {
        self is Btc ==> self.currency().is_bitcoin()
    }

    /// Tells whether the value may be written: see [`FeeResp::consistent`].
    pub fn is_consistent(&self) -> (r: bool)
        ensures
            r == self.consistent(),
    {
        match self {
            FeeResp::Btc((Currency::Btc, _)) => true,
            FeeResp::Btc((Currency::TBtc, _)) => true,
            FeeResp::Btc(_) => false,
            FeeResp::Other(_) => true,
        }
    }
}

impl Wire for FeeResp {
    /// The scheme is the one that a reader picks for the currency, and the
    /// currency is in normal form.
    open spec fn canonical(m: FeeResp) -> bool {
        m.currency().normal() && (m is Btc <==> m.currency().is_bitcoin())
    }

    /// Writing Bitcoin's fee scheme under another currency is a fault of
    /// the caller.
    open spec fn encodable(m: FeeResp) -> bool {
        m.consistent()
    }

    /// The currency, then the estimates of its scheme.
    open spec fn wire(m: FeeResp) -> Seq<u8> {
        match m {
            FeeResp::Btc((currency, fee)) => Currency::wire(currency) + FeeBtc::wire(fee),
            FeeResp::Other((currency, fee)) => Currency::wire(currency) + FeeOther::wire(fee),
        }
    }

    /// The currency decides the scheme: six estimates for Bitcoin and its
    /// test network, three for every other currency.
    open spec fn parse(s: Seq<u8>) -> Result<(FeeResp, nat), Error> {
        match Currency::parse(s) {
            Err(e) => Err(e),
            Ok((currency, n)) => if currency.is_bitcoin() {
                match FeeBtc::parse(s.skip(n as int)) {
                    Err(e) => Err(e),
                    Ok((fee, k)) => Ok((FeeResp::Btc((currency, fee)), n + k)),
                }
            } else {
                match FeeOther::parse(s.skip(n as int)) {
                    Err(e) => Err(e),
                    Ok((fee, k)) => Ok((FeeResp::Other((currency, fee)), n + k)),
                }
            },
        }
    }

    fn consensus_encode(&self, out: &mut Vec<u8>) {
        match self {
            FeeResp::Btc((currency, fee)) => {
                currency.consensus_encode(out);
                fee.consensus_encode(out);
            },
            FeeResp::Other((currency, fee)) => {
                currency.consensus_encode(out);
                fee.consensus_encode(out);
            },
        }
    }

    fn consensus_decode(buf: &[u8]) -> (r: Result<(FeeResp, usize), Error>) {
        let total = buf.len();
        let (currency, n) = Currency::consensus_decode(buf)?;
        proof {
            Currency::lemma_parse_sound(buf@);
        }
        let rest = tail(buf, n);
        match currency {
            Currency::Btc | Currency::TBtc => {
                let (fee, k) = FeeBtc::consensus_decode(rest)?;
                proof {
                    FeeBtc::lemma_parse_sound(rest@);
                }
                Ok((FeeResp::Btc((currency, fee)), n + k))
            },
            _ => {
                let (fee, k) = FeeOther::consensus_decode(rest)?;
                proof {
                    FeeOther::lemma_parse_sound(rest@);
                }
                Ok((FeeResp::Other((currency, fee)), n + k))
            },
        }
    }

    proof fn lemma_parse_sound(s: Seq<u8>) {
        Currency::lemma_parse_sound(s);
        if let Ok((currency, n)) = Currency::parse(s) {
            FeeBtc::lemma_parse_sound(s.skip(n as int));
            FeeOther::lemma_parse_sound(s.skip(n as int));
        }
    }

    proof fn lemma_roundtrip(m: FeeResp, rest: Seq<u8>) {
        match m {
            FeeResp::Btc((currency, fee)) => lemma_btc_roundtrip(currency, fee, rest),
            FeeResp::Other((currency, fee)) => lemma_other_roundtrip(currency, fee, rest),
        }
    }
}

/// Bitcoin's fee scheme reads back under Bitcoin or its test network.
proof fn lemma_btc_roundtrip(currency: Currency, fee: FeeBtc, rest: Seq<u8>)
    requires
        currency.is_bitcoin(),
    ensures
        FeeResp::parse(FeeResp::wire(FeeResp::Btc((currency, fee))) + rest) == Ok::<
            (FeeResp, nat),
            Error,
        >((FeeResp::Btc((currency, fee)), FeeResp::wire(FeeResp::Btc((currency, fee))).len())),
{
    let head = Currency::wire(currency);
    let body = FeeBtc::wire(fee);
    let s = head + body + rest;
    Currency::lemma_roundtrip(currency, body + rest);
    assert(s =~= head + (body + rest));
    assert(s.skip(head.len() as int) =~= body + rest);
    FeeBtc::lemma_roundtrip(fee, rest);
}

/// The plain fee scheme reads back under every other currency in normal
/// form.
proof fn lemma_other_roundtrip(currency: Currency, fee: FeeOther, rest: Seq<u8>)
    requires
        currency.normal(),
        !currency.is_bitcoin(),
    ensures
        FeeResp::parse(FeeResp::wire(FeeResp::Other((currency, fee))) + rest) == Ok::<
            (FeeResp, nat),
            Error,
        >((FeeResp::Other((currency, fee)), FeeResp::wire(FeeResp::Other((currency, fee))).len())),
{
    let head = Currency::wire(currency);
    let body = FeeOther::wire(fee);
    let s = head + body + rest;
    Currency::lemma_roundtrip(currency, body + rest);
    assert(s =~= head + (body + rest));
    assert(s.skip(head.len() as int) =~= body + rest);
    FeeOther::lemma_roundtrip(fee, rest);
}

} // verus!
