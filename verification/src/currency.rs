//! The assets that the protocol knows by index: currencies and fiat money.
//!
//! Both are open sets. An index that is not in the table is kept as
//! `Unknown`, so that a peer with a newer table is still understood.

use vstd::prelude::*;
use crate::error::Error;
use crate::primitives::{get_varint, low32, low32_of, parse_varint, put_varint, varint_wire, lemma_parse_varint_len, lemma_varint_roundtrip};
use crate::fields::VarInt;
use crate::wire::Wire;

verus! {

/// A currency, by its place in the protocol's table.
#[derive(Clone, Copy, PartialEq, Eq, PartialOrd, Ord, Debug, Hash, Structural)]
pub enum Currency {
    Btc,
    TBtc,
    Ergo,
    TErgo,
    UsdtOmni,
    TUsdtOmni,
    Ltc,
    TLtc,
    Zec,
    TZec,
    Cpr,
    TCpr,
    Dash,
    TDash,
    Unknown(u32),
}

/// Fiat money, by its place in the protocol's table.
#[derive(Clone, Copy, PartialEq, Eq, PartialOrd, Ord, Debug, Hash, Structural)]
pub enum Fiat {
    Usd,
    Eur,
    Rub,
    Unknown(u32),
}

impl View for Currency {
    type V = Currency;

    open spec fn view(&self) -> Currency {
        *self
    }
}

impl View for Fiat {
    type V = Fiat;

    open spec fn view(&self) -> Fiat {
        *self
    }
}

impl Default for Currency {
    fn default() -> (r: Currency)
        ensures
            r == Currency::Btc,
    {
        Currency::Btc
    }
}

impl Currency {
    /// The number of indices that the table assigns.
    pub open spec fn known() -> u32 {
        14
    }

    /// The index that stands for a currency on the wire.
    pub open spec fn spec_as_index(self) -> u32 {
        match self {
            Currency::Btc => 0,
            Currency::TBtc => 1,
            Currency::Ergo => 2,
            Currency::TErgo => 3,
            Currency::UsdtOmni => 4,
            Currency::TUsdtOmni => 5,
            Currency::Ltc => 6,
            Currency::TLtc => 7,
            Currency::Zec => 8,
            Currency::TZec => 9,
            Currency::Cpr => 10,
            Currency::TCpr => 11,
            Currency::Dash => 12,
            Currency::TDash => 13,
            Currency::Unknown(i) => i,
        }
    }

    /// The currency that an index stands for.
    pub open spec fn spec_from_index(i: u32) -> Currency {
        if i == 0 {
            Currency::Btc
        } else if i == 1 {
            Currency::TBtc
        } else if i == 2 {
            Currency::Ergo
        } else if i == 3 {
            Currency::TErgo
        } else if i == 4 {
            Currency::UsdtOmni
        } else if i == 5 {
            Currency::TUsdtOmni
        } else if i == 6 {
            Currency::Ltc
        } else if i == 7 {
            Currency::TLtc
        } else if i == 8 {
            Currency::Zec
        } else if i == 9 {
            Currency::TZec
        } else if i == 10 {
            Currency::Cpr
        } else if i == 11 {
            Currency::TCpr
        } else if i == 12 {
            Currency::Dash
        } else if i == 13 {
            Currency::TDash
        } else {
            Currency::Unknown(i)
        }
    }

    /// The name of a currency in words. Every `Unknown` has the same name:
    /// the index is not part of it.
    pub open spec fn spec_label(self) -> Seq<char> {
        match self {
            Currency::Btc => "Bitcoin"@,
            Currency::TBtc => "Testnet Bitcoin"@,
            Currency::Ergo => "Ergo"@,
            Currency::TErgo => "Testnet Ergo"@,
            Currency::UsdtOmni => "USDT on Omni"@,
            Currency::TUsdtOmni => "Testnet USDT on Omni"@,
            Currency::Ltc => "Litecoin"@,
            Currency::TLtc => "Testnet Litecoin"@,
            Currency::Zec => "ZCash"@,
            Currency::TZec => "Testnet ZCash"@,
            Currency::Cpr => "Cypra"@,
            Currency::TCpr => "Testnet Cypra"@,
            Currency::Dash => "Dash"@,
            Currency::TDash => "Testnet Dash"@,
            Currency::Unknown(_) => "Unknown currency"@,
        }
    }

    /// The name of the currency in words.
    pub fn label(&self) -> (r: &'static str)
        ensures
            r@ == self.spec_label(),
    {
        match self {
            Currency::Btc => "Bitcoin",
            Currency::TBtc => "Testnet Bitcoin",
            Currency::Ergo => "Ergo",
            Currency::TErgo => "Testnet Ergo",
            Currency::UsdtOmni => "USDT on Omni",
            Currency::TUsdtOmni => "Testnet USDT on Omni",
            Currency::Ltc => "Litecoin",
            Currency::TLtc => "Testnet Litecoin",
            Currency::Zec => "ZCash",
            Currency::TZec => "Testnet ZCash",
            Currency::Cpr => "Cypra",
            Currency::TCpr => "Testnet Cypra",
            Currency::Dash => "Dash",
            Currency::TDash => "Testnet Dash",
            Currency::Unknown(_) => "Unknown currency",
        }
    }

    /// A currency is in normal form unless it hides a known index in `Unknown`.
    pub open spec fn normal(self) -> bool {
        self matches Currency::Unknown(i) ==> i >= Currency::known()
    }

    /// Bitcoin and its test network: the currencies with Bitcoin's fee scheme.
    pub open spec fn is_bitcoin(self) -> bool {
        self == Currency::Btc || self == Currency::TBtc
    }

    /// The index that stands for the value on the wire.
    pub fn as_index(&self) -> (r: u32)
        ensures
            r == self.spec_as_index(),
    {
        match self {
            Currency::Btc => 0,
            Currency::TBtc => 1,
            Currency::Ergo => 2,
            Currency::TErgo => 3,
            Currency::UsdtOmni => 4,
            Currency::TUsdtOmni => 5,
            Currency::Ltc => 6,
            Currency::TLtc => 7,
            Currency::Zec => 8,
            Currency::TZec => 9,
            Currency::Cpr => 10,
            Currency::TCpr => 11,
            Currency::Dash => 12,
            Currency::TDash => 13,
            Currency::Unknown(i) => *i,
        }
    }

    /// The value that an index stands for; `Unknown` of the index where
    /// the table has none.
    pub fn from_index(i: u32) -> (r: Currency)
        ensures
            r == Currency::spec_from_index(i),
            r.normal(),
            r.spec_as_index() == i,
    {
        match i {
            0 => Currency::Btc,
            1 => Currency::TBtc,
            2 => Currency::Ergo,
            3 => Currency::TErgo,
            4 => Currency::UsdtOmni,
            5 => Currency::TUsdtOmni,
            6 => Currency::Ltc,
            7 => Currency::TLtc,
            8 => Currency::Zec,
            9 => Currency::TZec,
            10 => Currency::Cpr,
            11 => Currency::TCpr,
            12 => Currency::Dash,
            13 => Currency::TDash,
            i => Currency::Unknown(i),
        }
    }
}

impl Currency {
    /// The integer that stands for the currency on the wire: its index.
    pub fn pack(&self) -> (r: VarInt)
        ensures
            r.0 == self.spec_as_index(),
    {
        VarInt(self.as_index() as u64)
    }

    /// The currency that an integer off the wire stands for: of an integer
    /// wider than 32 bits the low 32 bits are the index. An index outside
    /// the table gives `Unknown` of itself.
    pub fn unpack(i: VarInt) -> (r: Currency)
        ensures
            r == Currency::spec_from_index(low32(i.0)),
            r.normal(),
            i.0 <= u32::MAX ==> r.spec_as_index() == i.0,
            Currency::known() <= i.0 <= u32::MAX ==> r == Currency::Unknown(i.0 as u32),
    {
        Currency::from_index(low32_of(i.0))
    }
}

impl Fiat {
    /// The integer that stands for the fiat currency on the wire: its index.
    pub fn pack(&self) -> (r: VarInt)
        ensures
            r.0 == self.spec_as_index(),
    {
        VarInt(self.as_index() as u64)
    }

    /// The fiat currency that an integer off the wire stands for: of an
    /// integer wider than 32 bits the low 32 bits are the index. An index
    /// outside the table gives `Unknown` of itself.
    pub fn unpack(i: VarInt) -> (r: Fiat)
        ensures
            r == Fiat::spec_from_index(low32(i.0)),
            r.normal(),
            i.0 <= u32::MAX ==> r.spec_as_index() == i.0,
            Fiat::known() <= i.0 <= u32::MAX ==> r == Fiat::Unknown(i.0 as u32),
    {
        Fiat::from_index(low32_of(i.0))
    }
}

impl Fiat {
    /// The number of indices that the table assigns.
    pub open spec fn known() -> u32 {
        3
    }

    /// The index that stands for a fiat currency on the wire.
    pub open spec fn spec_as_index(self) -> u32 {
        match self {
            Fiat::Usd => 0,
            Fiat::Eur => 1,
            Fiat::Rub => 2,
            Fiat::Unknown(i) => i,
        }
    }

    /// The fiat currency that an index stands for.
    pub open spec fn spec_from_index(i: u32) -> Fiat {
        if i == 0 {
            Fiat::Usd
        } else if i == 1 {
            Fiat::Eur
        } else if i == 2 {
            Fiat::Rub
        } else {
            Fiat::Unknown(i)
        }
    }

    /// The name of a fiat currency in words. Every `Unknown` has the same
    /// name: the index is not part of it.
    pub open spec fn spec_label(self) -> Seq<char> {
        match self {
            Fiat::Usd => "US Dollar"@,
            Fiat::Eur => "Euro"@,
            Fiat::Rub => "Ruble"@,
            Fiat::Unknown(_) => "Unknown fiat currency"@,
        }
    }

    /// The name of the fiat currency in words.
    pub fn label(&self) -> (r: &'static str)
        ensures
            r@ == self.spec_label(),
    {
        match self {
            Fiat::Usd => "US Dollar",
            Fiat::Eur => "Euro",
            Fiat::Rub => "Ruble",
            Fiat::Unknown(_) => "Unknown fiat currency",
        }
    }

    /// A fiat currency is in normal form unless it hides a known index in
    /// `Unknown`.
    pub open spec fn normal(self) -> bool {
        self matches Fiat::Unknown(i) ==> i >= Fiat::known()
    }

    /// The index that stands for the value on the wire.
    pub fn as_index(&self) -> (r: u32)
        ensures
            r == self.spec_as_index(),
    {
        match self {
            Fiat::Usd => 0,
            Fiat::Eur => 1,
            Fiat::Rub => 2,
            Fiat::Unknown(i) => *i,
        }
    }

    /// The value that an index stands for; `Unknown` of the index where
    /// the table has none.
    pub fn from_index(i: u32) -> (r: Fiat)
        ensures
            r == Fiat::spec_from_index(i),
            r.normal(),
            r.spec_as_index() == i,
    {
        match i {
            0 => Fiat::Usd,
            1 => Fiat::Eur,
            2 => Fiat::Rub,
            i => Fiat::Unknown(i),
        }
    }
}

/// Index and currency are inverse to each other: every index gives a
/// currency with that index, and a currency in normal form is the one that
/// its index gives. An index outside the table gives `Unknown` of itself.
pub proof fn lemma_currency_index(i: u32, c: Currency)
    ensures
        Currency::spec_from_index(i).spec_as_index() == i,
        Currency::spec_from_index(i).normal(),
        c.normal() ==> Currency::spec_from_index(c.spec_as_index()) == c,
        i >= Currency::known() ==> Currency::spec_from_index(i) == Currency::Unknown(i),
{
}

/// Index and fiat currency are inverse to each other, as for currencies.
pub proof fn lemma_fiat_index(i: u32, f: Fiat)
    ensures
        Fiat::spec_from_index(i).spec_as_index() == i,
        Fiat::spec_from_index(i).normal(),
        f.normal() ==> Fiat::spec_from_index(f.spec_as_index()) == f,
        i >= Fiat::known() ==> Fiat::spec_from_index(i) == Fiat::Unknown(i),
{
}

/// An index outside the table comes off the wire as `Unknown` of itself,
/// and `Unknown` of it goes on the wire as that index: written and read
/// again, it is the same value, whatever follows it on the wire.
pub proof fn lemma_unknown_currency(i: u32, rest: Seq<u8>)
    requires
        i >= Currency::known(),
    ensures
        Currency::wire(Currency::Unknown(i)) == varint_wire(i as u64),
        Currency::parse(varint_wire(i as u64) + rest) == Ok::<(Currency, nat), Error>(
            (Currency::Unknown(i), varint_wire(i as u64).len()),
        ),
{
    Currency::lemma_roundtrip(Currency::Unknown(i), rest);
}

/// An index outside the table comes off the wire as `Unknown` of itself,
/// and `Unknown` of it goes on the wire as that index: written and read
/// again, it is the same value, whatever follows it on the wire.
pub proof fn lemma_unknown_fiat(i: u32, rest: Seq<u8>)
    requires
        i >= Fiat::known(),
    ensures
        Fiat::wire(Fiat::Unknown(i)) == varint_wire(i as u64),
        Fiat::parse(varint_wire(i as u64) + rest) == Ok::<(Fiat, nat), Error>(
            (Fiat::Unknown(i), varint_wire(i as u64).len()),
        ),
{
    Fiat::lemma_roundtrip(Fiat::Unknown(i), rest);
}

impl Wire for Currency {
    open spec fn canonical(m: Currency) -> bool {
        m.normal()
    }

    open spec fn encodable(m: Currency) -> bool {
        true
    }

    /// The index as a variable-length integer.
    open spec fn wire(m: Currency) -> Seq<u8> {
        varint_wire(m.spec_as_index() as u64)
    }

    /// Never refuses an index: of a wider integer the low 32 bits count.
    open spec fn parse(s: Seq<u8>) -> Result<(Currency, nat), Error> {
        match parse_varint(s) {
            Err(e) => Err(e),
            Ok((x, n)) => Ok((Currency::spec_from_index(low32(x)), n)),
        }
    }

    fn consensus_encode(&self, out: &mut Vec<u8>) {
        put_varint(out, self.pack().0);
    }

    fn consensus_decode(buf: &[u8]) -> (r: Result<(Currency, usize), Error>) {
        let (x, n) = get_varint(buf)?;
        Ok((Currency::unpack(VarInt(x)), n))
    }

    proof fn lemma_parse_sound(s: Seq<u8>) {
        lemma_parse_varint_len(s);
    }

    proof fn lemma_roundtrip(m: Currency, rest: Seq<u8>) {
        lemma_varint_roundtrip(m.spec_as_index() as u64, rest);
    }
}

impl Wire for Fiat {
    open spec fn canonical(m: Fiat) -> bool {
        m.normal()
    }

    open spec fn encodable(m: Fiat) -> bool {
        true
    }

    /// The index as a variable-length integer.
    open spec fn wire(m: Fiat) -> Seq<u8> {
        varint_wire(m.spec_as_index() as u64)
    }

    /// Never refuses an index: of a wider integer the low 32 bits count.
    open spec fn parse(s: Seq<u8>) -> Result<(Fiat, nat), Error> {
        match parse_varint(s) {
            Err(e) => Err(e),
            Ok((x, n)) => Ok((Fiat::spec_from_index(low32(x)), n)),
        }
    }

    fn consensus_encode(&self, out: &mut Vec<u8>) {
        put_varint(out, self.pack().0);
    }

    fn consensus_decode(buf: &[u8]) -> (r: Result<(Fiat, usize), Error>) {
        let (x, n) = get_varint(buf)?;
        Ok((Fiat::unpack(VarInt(x)), n))
    }

    proof fn lemma_parse_sound(s: Seq<u8>) {
        lemma_parse_varint_len(s);
    }

    proof fn lemma_roundtrip(m: Fiat, rest: Seq<u8>) {
        lemma_varint_roundtrip(m.spec_as_index() as u64, rest);
    }
}

} // verus!
