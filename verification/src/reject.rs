//! The reply to a message that could not be handled.

use vstd::prelude::*;
use crate::error::Error;
use crate::fields::VarInt;
use crate::primitives::{get_varint, low32, low32_of, parse_varint, put_varint, varint_wire, lemma_parse_varint_len, lemma_varint_roundtrip};
use crate::wire::Wire;

verus! {

/// Why a message was rejected. The set is open: a code that is not in the
/// table is kept as `Unknown`.
#[derive(Clone, PartialEq, Eq, PartialOrd, Ord, Debug, Hash, Structural)]
pub enum RejectData {
    HeaderParsing,
    PayloadParsing,
    InternalError,
    ZeroBytesReceived,
    VersionNotSupported,
    Unknown(u32),
}

/// A rejection: the identifier of the offending message, the reason, and
/// free text.
#[derive(Clone, PartialEq, Eq, PartialOrd, Ord, Debug, Hash)]
pub struct RejectMessage {
    pub id: u32,
    pub data: RejectData,
    pub message: String,
}

/// A rejection as contracts see it.
pub struct RejectMessageModel {
    pub id: u32,
    pub data: RejectData,
    pub message: Seq<char>,
}

impl View for RejectData {
    type V = RejectData;

    open spec fn view(&self) -> RejectData {
        *self
    }
}

impl View for RejectMessage {
    type V = RejectMessageModel;

    open spec fn view(&self) -> RejectMessageModel {
        RejectMessageModel { id: self.id, data: self.data, message: self.message@ }
    }
}

impl RejectData {
    /// The number of codes that the table assigns.
    pub open spec fn known() -> u32 {
        5
    }

    /// The code that stands for a reason on the wire.
    pub open spec fn spec_to_code(self) -> u32 {
        match self {
            RejectData::HeaderParsing => 0,
            RejectData::PayloadParsing => 1,
            RejectData::InternalError => 2,
            RejectData::ZeroBytesReceived => 3,
            RejectData::VersionNotSupported => 4,
            RejectData::Unknown(i) => i,
        }
    }

    /// The reason that a code stands for.
    pub open spec fn spec_from_code(i: u32) -> RejectData {
        if i == 0 {
            RejectData::HeaderParsing
        } else if i == 1 {
            RejectData::PayloadParsing
        } else if i == 2 {
            RejectData::InternalError
        } else if i == 3 {
            RejectData::ZeroBytesReceived
        } else if i == 4 {
            RejectData::VersionNotSupported
        } else {
            RejectData::Unknown(i)
        }
    }

    /// The reason in words. Every `Unknown` reads the same: the code is not
    /// part of it.
    pub open spec fn spec_label(self) -> Seq<char> {
        match self {
            RejectData::HeaderParsing => "header parsing"@,
            RejectData::PayloadParsing => "payload parsing"@,
            RejectData::InternalError => "internal error"@,
            RejectData::ZeroBytesReceived => "got zero bytes"@,
            RejectData::VersionNotSupported => "version is not supported"@,
            RejectData::Unknown(_) => "unknown error"@,
        }
    }

    /// The reason in words.
    pub fn label(&self) -> (r: &'static str)
        ensures
            r@ == self.spec_label(),
    {
        match self {
            RejectData::HeaderParsing => "header parsing",
            RejectData::PayloadParsing => "payload parsing",
            RejectData::InternalError => "internal error",
            RejectData::ZeroBytesReceived => "got zero bytes",
            RejectData::VersionNotSupported => "version is not supported",
            RejectData::Unknown(_) => "unknown error",
        }
    }

    /// A reason is in normal form unless it hides a known code in `Unknown`.
    pub open spec fn normal(self) -> bool {
        self matches RejectData::Unknown(i) ==> i >= RejectData::known()
    }

    /// The code that stands for the reason on the wire.
    pub fn to_code(&self) -> (r: u32)
        ensures
            r == self.spec_to_code(),
    {
        match self {
            RejectData::HeaderParsing => 0,
            RejectData::PayloadParsing => 1,
            RejectData::InternalError => 2,
            RejectData::ZeroBytesReceived => 3,
            RejectData::VersionNotSupported => 4,
            RejectData::Unknown(i) => *i,
        }
    }

    /// The reason that a code stands for; `Unknown` of the code where the
    /// table has none.
    pub fn from_code(i: u32) -> (r: RejectData)
        ensures
            r == RejectData::spec_from_code(i),
            r.normal(),
            r.spec_to_code() == i,
    {
        match i {
            0 => RejectData::HeaderParsing,
            1 => RejectData::PayloadParsing,
            2 => RejectData::InternalError,
            3 => RejectData::ZeroBytesReceived,
            4 => RejectData::VersionNotSupported,
            i => RejectData::Unknown(i),
        }
    }
}

impl RejectData {
    /// The integer that stands for the reason on the wire: its code.
    pub fn pack(&self) -> (r: VarInt)
        ensures
            r.0 == self.spec_to_code(),
    {
        VarInt(self.to_code() as u64)
    }

    /// The reason that an integer off the wire stands for: of an integer
    /// wider than 32 bits the low 32 bits are the code. A code outside the
    /// table gives `Unknown` of itself.
    pub fn unpack(i: VarInt) -> (r: RejectData)
        ensures
            r == RejectData::spec_from_code(low32(i.0)),
            r.normal(),
            i.0 <= u32::MAX ==> r.spec_to_code() == i.0,
            RejectData::known() <= i.0 <= u32::MAX ==> r == RejectData::Unknown(i.0 as u32),
    {
        RejectData::from_code(low32_of(i.0))
    }
}

/// Code and reason are inverse to each other: every code gives a reason
/// with that code, and a reason in normal form is the one that its code
/// gives. A code outside the table gives `Unknown` of itself.
pub proof fn lemma_reject_code(i: u32, d: RejectData)
    ensures
        RejectData::spec_from_code(i).spec_to_code() == i,
        RejectData::spec_from_code(i).normal(),
        d.normal() ==> RejectData::spec_from_code(d.spec_to_code()) == d,
        i >= RejectData::known() ==> RejectData::spec_from_code(i) == RejectData::Unknown(i),
{
}

impl Wire for RejectData {
    open spec fn canonical(m: RejectData) -> bool {
        m.normal()
    }

    open spec fn encodable(m: RejectData) -> bool {
        true
    }

    /// The code as a variable-length integer.
    open spec fn wire(m: RejectData) -> Seq<u8> {
        varint_wire(m.spec_to_code() as u64)
    }

    /// Never refuses a code: of a wider integer the low 32 bits count.
    open spec fn parse(s: Seq<u8>) -> Result<(RejectData, nat), Error> {
        match parse_varint(s) {
            Err(e) => Err(e),
            Ok((x, n)) => Ok((RejectData::spec_from_code(low32(x)), n)),
        }
    }

    fn consensus_encode(&self, out: &mut Vec<u8>) {
        put_varint(out, self.pack().0);
    }

    fn consensus_decode(buf: &[u8]) -> (r: Result<(RejectData, usize), Error>) {
        let (x, n) = get_varint(buf)?;
        Ok((RejectData::unpack(VarInt(x)), n))
    }

    proof fn lemma_parse_sound(s: Seq<u8>) {
        lemma_parse_varint_len(s);
    }

    proof fn lemma_roundtrip(m: RejectData, rest: Seq<u8>) {
        lemma_varint_roundtrip(m.spec_to_code() as u64, rest);
    }
}

/// The fields of a rejection in wire order: the message identifier as a
/// variable-length integer, the reason, and the text.
pub type RejectMessageFields = (VarInt, (RejectData, String));

impl RejectMessageModel {
    /// The fields in wire order.
    pub open spec fn fields(self) -> (u64, (RejectData, Seq<char>)) {
        (self.id as u64, (self.data, self.message))
    }

    /// Of an identifier wider than 32 bits the low 32 bits count.
    pub open spec fn of_fields(f: (u64, (RejectData, Seq<char>))) -> RejectMessageModel {
        RejectMessageModel { id: low32(f.0), data: f.1.0, message: f.1.1 }
    }
}

impl Wire for RejectMessage {
    open spec fn canonical(m: RejectMessageModel) -> bool {
        RejectMessageFields::canonical(m.fields())
    }

    open spec fn encodable(m: RejectMessageModel) -> bool {
        true
    }

    open spec fn wire(m: RejectMessageModel) -> Seq<u8> {
        RejectMessageFields::wire(m.fields())
    }

    open spec fn parse(s: Seq<u8>) -> Result<(RejectMessageModel, nat), Error> {
        match RejectMessageFields::parse(s) {
            Err(e) => Err(e),
            Ok((f, n)) => Ok((RejectMessageModel::of_fields(f), n)),
        }
    }

    fn consensus_encode(&self, out: &mut Vec<u8>) {
        put_varint(out, self.id as u64);
        self.data.consensus_encode(out);
        self.message.consensus_encode(out);
    }

    fn consensus_decode(buf: &[u8]) -> (r: Result<(RejectMessage, usize), Error>) {
        let ((id, (data, message)), n) = RejectMessageFields::consensus_decode(buf)?;
        Ok((RejectMessage { id: low32_of(id.0), data, message }, n))
    }

    proof fn lemma_parse_sound(s: Seq<u8>) {
        RejectMessageFields::lemma_parse_sound(s);
    }

    proof fn lemma_roundtrip(m: RejectMessageModel, rest: Seq<u8>) {
        RejectMessageFields::lemma_roundtrip(m.fields(), rest);
    }
}

} // verus!
