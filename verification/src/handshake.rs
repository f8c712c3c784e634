//! The version handshake: what a client says of itself when it connects.

use vstd::prelude::*;
use crate::currency::Currency;
use crate::error::Error;
use crate::fields::{LengthVec, VarInt};
use crate::primitives::{put_bytes, put_u64_le, put_varint};
use crate::version::Version;
use crate::wire::{encode_list, seq_view, Wire};

verus! {

/// How far a client has scanned one currency's chain.
#[derive(Clone, PartialEq, Eq, PartialOrd, Ord, Debug, Hash)]
pub struct ScanBlock {
    pub currency: Currency,
    pub version: Version,
    pub scan_height: u64,
    pub height: u64,
}

/// The first message of a connection.
#[derive(Clone, PartialEq, Eq, PartialOrd, Ord, Debug, Hash)]
pub struct VersionMessage {
    pub version: Version,
    pub time: u64,
    pub nonce: [u8; 8],
    pub scan_blocks: Vec<ScanBlock>,
}

/// A version message as contracts see it.
pub struct VersionMessageModel {
    pub version: Version,
    pub time: u64,
    pub nonce: Seq<u8>,
    pub scan_blocks: Seq<ScanBlock>,
}

impl View for ScanBlock {
    type V = ScanBlock;

    open spec fn view(&self) -> ScanBlock {
        *self
    }
}

impl View for VersionMessage {
    type V = VersionMessageModel;

    open spec fn view(&self) -> VersionMessageModel {
        VersionMessageModel {
            version: self.version,
            time: self.time,
            nonce: self.nonce@,
            scan_blocks: seq_view(self.scan_blocks@),
        }
    }
}

/// The fields of a scan block in wire order: currency, version, then the
/// two heights as variable-length integers.
pub type ScanBlockFields = (Currency, (Version, (VarInt, VarInt)));

/// The fields of a version message in wire order: version, time in eight
/// bytes, the nonce, and the list of scan blocks.
pub type VersionMessageFields = (Version, (u64, ([u8; 8], LengthVec<ScanBlock>)));

impl ScanBlock {
    /// The fields in wire order.
    pub open spec fn fields(self) -> (Currency, (Version, (u64, u64))) {
        (self.currency, (self.version, (self.scan_height, self.height)))
    }

    /// The value that the fields make up.
    pub open spec fn of_fields(f: (Currency, (Version, (u64, u64)))) -> ScanBlock {
        ScanBlock { currency: f.0, version: f.1.0, scan_height: f.1.1.0, height: f.1.1.1 }
    }
}

impl VersionMessageModel {
    /// The fields in wire order.
    pub open spec fn fields(self) -> (Version, (u64, (Seq<u8>, Seq<ScanBlock>))) {
        (self.version, (self.time, (self.nonce, self.scan_blocks)))
    }

    /// The value that the fields make up.
    pub open spec fn of_fields(
        f: (Version, (u64, (Seq<u8>, Seq<ScanBlock>))),
    ) -> VersionMessageModel {
        VersionMessageModel { version: f.0, time: f.1.0, nonce: f.1.1.0, scan_blocks: f.1.1.1 }
    }
}

impl Wire for ScanBlock {
    open spec fn canonical(m: ScanBlock) -> bool {
        ScanBlockFields::canonical(m.fields())
    }

    open spec fn encodable(m: ScanBlock) -> bool {
        true
    }

    open spec fn wire(m: ScanBlock) -> Seq<u8> {
        ScanBlockFields::wire(m.fields())
    }

    open spec fn parse(s: Seq<u8>) -> Result<(ScanBlock, nat), Error> {
        match ScanBlockFields::parse(s) {
            Err(e) => Err(e),
            Ok((f, n)) => Ok((ScanBlock::of_fields(f), n)),
        }
    }

    fn consensus_encode(&self, out: &mut Vec<u8>) {
        self.currency.consensus_encode(out);
        self.version.consensus_encode(out);
        put_varint(out, self.scan_height);
        put_varint(out, self.height);
    }

    fn consensus_decode(buf: &[u8]) -> (r: Result<(ScanBlock, usize), Error>) {
        let ((currency, (version, (scan_height, height))), n) = ScanBlockFields::consensus_decode(
            buf,
        )?;
        Ok((ScanBlock { currency, version, scan_height: scan_height.0, height: height.0 }, n))
    }

    proof fn lemma_parse_sound(s: Seq<u8>) {
        ScanBlockFields::lemma_parse_sound(s);
    }

    proof fn lemma_roundtrip(m: ScanBlock, rest: Seq<u8>) {
        ScanBlockFields::lemma_roundtrip(m.fields(), rest);
    }
}

impl Wire for VersionMessage {
    open spec fn canonical(m: VersionMessageModel) -> bool {
        VersionMessageFields::canonical(m.fields())
    }

    open spec fn encodable(m: VersionMessageModel) -> bool {
        true
    }

    open spec fn wire(m: VersionMessageModel) -> Seq<u8> {
        VersionMessageFields::wire(m.fields())
    }

    open spec fn parse(s: Seq<u8>) -> Result<(VersionMessageModel, nat), Error> {
        match VersionMessageFields::parse(s) {
            Err(e) => Err(e),
            Ok((f, n)) => Ok((VersionMessageModel::of_fields(f), n)),
        }
    }

    fn consensus_encode(&self, out: &mut Vec<u8>) {
        self.version.consensus_encode(out);
        put_u64_le(out, self.time);
        put_bytes(out, self.nonce.as_slice());
        encode_list(self.scan_blocks.as_slice(), out);
    }

    fn consensus_decode(buf: &[u8]) -> (r: Result<(VersionMessage, usize), Error>) {
        let ((version, (time, (nonce, scan_blocks))), n) = VersionMessageFields::consensus_decode(
            buf,
        )?;
        Ok((VersionMessage { version, time, nonce, scan_blocks: scan_blocks.0 }, n))
    }

    proof fn lemma_parse_sound(s: Seq<u8>) {
        VersionMessageFields::lemma_parse_sound(s);
    }

    proof fn lemma_roundtrip(m: VersionMessageModel, rest: Seq<u8>) {
        VersionMessageFields::lemma_roundtrip(m.fields(), rest);
    }
}

} // verus!
