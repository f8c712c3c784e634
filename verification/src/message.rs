//! The message envelope: which messages there are, how each is framed, and
//! how a byte string is taken apart into a message.
//!
//! One message on the wire is its identifier as a variable-length integer
//! and, for the messages that have a body, the length of the payload as a
//! variable-length integer and then the payload, which is the body's own
//! wire form.

use vstd::prelude::*;
pub use crate::address::{Address, AddressModel};
pub use crate::bulk::{FiltersResp, FiltersRespModel, MempoolChunkResp, MempoolChunkRespModel};
pub use crate::currency::{Currency, Fiat};
pub use crate::error::Error;
pub use crate::fee::{FeeBtc, FeeOther, FeeResp};
pub use crate::fields::{LengthVec, VarInt};
pub use crate::filters::{Filter, FilterEvent, FilterPrefixPair, FiltersReq, MemFilter, TxPrefix};
pub use crate::handshake::{ScanBlock, VersionMessage};
pub use crate::rates::{FiatRate, Rate, RateReq, RateResp};
pub use crate::reject::{RejectData, RejectMessage};
pub use crate::text::{to_hex, Text};
pub use crate::version::Version;
pub use crate::wire::{deserialize, deserialize_partial, serialize, Wire};
use crate::filters::{FilterEventModel, FilterPrefixPairModel};
use crate::handshake::VersionMessageModel;
use crate::rates::{RateReqModel, RateRespModel};
use crate::reject::RejectMessageModel;
use crate::compress::gzip_of;
use crate::wire::{all_encodable, encode_list, parse_exact, seq_view, wire_list, wire_seq, lemma_exact_roundtrip, lemma_parse_exact_sound};
use crate::primitives::{get_varint, parse_varint, put_bytes, put_varint, tail, varint_wire, lemma_varint_roundtrip};

verus! {

/// Maximum size of a message's payload in bytes.
pub const MAX_MESSAGE_SIZE: usize = 10_485_760;

/// The highest message identifier.
pub const LAST_MESSAGE_ID: u32 = 21;

/// The length of the nonce of a ping or a pong.
pub const NONCE_SIZE: usize = 8;

/// A message of the protocol.
#[derive(Clone, PartialEq, Eq, PartialOrd, Ord, Debug, Hash)]
pub enum Message {
    Version(VersionMessage),
    VersionAck,
    GetFilters(FiltersReq),
    Filters(FiltersResp),
    Filter(FilterEvent),
    GetPeers,
    Peers(Vec<Address>),
    GetFee(Vec<Currency>),
    Fee(Vec<FeeResp>),
    PeerIntroduce(Vec<Address>),
    Reject(RejectMessage),
    Ping([u8; 8]),
    Pong([u8; 8]),
    GetRates(Vec<RateReq>),
    Rates(Vec<RateResp>),
    FullFilterInv,
    GetFullFilter,
    FullFilter(MemFilter),
    GetMemFilters,
    MemFilters(Vec<FilterPrefixPair>),
    GetMempool(Vec<TxPrefix>),
    MempoolChunk(MempoolChunkResp),
}

/// A message as contracts see it.
pub enum MessageModel {
    Version(VersionMessageModel),
    VersionAck,
    GetFilters(FiltersReq),
    Filters(FiltersRespModel),
    Filter(FilterEventModel),
    GetPeers,
    Peers(Seq<AddressModel>),
    GetFee(Seq<Currency>),
    Fee(Seq<FeeResp>),
    PeerIntroduce(Seq<AddressModel>),
    Reject(RejectMessageModel),
    Ping(Seq<u8>),
    Pong(Seq<u8>),
    GetRates(Seq<RateReqModel>),
    Rates(Seq<RateRespModel>),
    FullFilterInv,
    GetFullFilter,
    FullFilter(Seq<u8>),
    GetMemFilters,
    MemFilters(Seq<FilterPrefixPairModel>),
    GetMempool(Seq<Seq<u8>>),
    MempoolChunk(MempoolChunkRespModel),
}

impl View for Message {
    type V = MessageModel;

    open spec fn view(&self) -> MessageModel {
        match *self {
            Message::Version(msg) => MessageModel::Version(msg@),
            Message::VersionAck => MessageModel::VersionAck,
            Message::GetFilters(msg) => MessageModel::GetFilters(msg@),
            Message::Filters(msg) => MessageModel::Filters(msg@),
            Message::Filter(msg) => MessageModel::Filter(msg@),
            Message::GetPeers => MessageModel::GetPeers,
            Message::Peers(list) => MessageModel::Peers(seq_view(list@)),
            Message::GetFee(list) => MessageModel::GetFee(seq_view(list@)),
            Message::Fee(list) => MessageModel::Fee(seq_view(list@)),
            Message::PeerIntroduce(list) => MessageModel::PeerIntroduce(seq_view(list@)),
            Message::Reject(msg) => MessageModel::Reject(msg@),
            Message::Ping(nonce) => MessageModel::Ping(nonce@),
            Message::Pong(nonce) => MessageModel::Pong(nonce@),
            Message::GetRates(list) => MessageModel::GetRates(seq_view(list@)),
            Message::Rates(list) => MessageModel::Rates(seq_view(list@)),
            Message::FullFilterInv => MessageModel::FullFilterInv,
            Message::GetFullFilter => MessageModel::GetFullFilter,
            Message::FullFilter(filter) => MessageModel::FullFilter(filter@),
            Message::GetMemFilters => MessageModel::GetMemFilters,
            Message::MemFilters(list) => MessageModel::MemFilters(seq_view(list@)),
            Message::GetMempool(list) => MessageModel::GetMempool(seq_view(list@)),
            Message::MempoolChunk(msg) => MessageModel::MempoolChunk(msg@),
        }
    }
}

/// The identifiers whose messages have a body.
pub open spec fn carries_payload(id: u32) -> bool {
    id <= LAST_MESSAGE_ID && id != 1 && id != 5 && id != 15 && id != 16 && id != 18
}

/// Reads the nonce of a ping or a pong: the first eight bytes of the
/// payload. A longer payload is let pass, a shorter one is refused.
pub open spec fn parse_nonce(payload: Seq<u8>) -> Result<Seq<u8>, Error> {
    if payload.len() < NONCE_SIZE {
        Err(Error::TruncatedInput)
    } else {
        Ok(payload.take(NONCE_SIZE as int))
    }
}

impl MessageModel {
    /// The identifier that leads the message on the wire.
    pub open spec fn id(self) -> u32 {
        match self {
            MessageModel::Version(_) => 0,
            MessageModel::VersionAck => 1,
            MessageModel::GetFilters(_) => 2,
            MessageModel::Filters(_) => 3,
            MessageModel::Filter(_) => 4,
            MessageModel::GetPeers => 5,
            MessageModel::Peers(_) => 6,
            MessageModel::GetFee(_) => 7,
            MessageModel::Fee(_) => 8,
            MessageModel::PeerIntroduce(_) => 9,
            MessageModel::Reject(_) => 10,
            MessageModel::Ping(_) => 11,
            MessageModel::Pong(_) => 12,
            MessageModel::GetRates(_) => 13,
            MessageModel::Rates(_) => 14,
            MessageModel::FullFilterInv => 15,
            MessageModel::GetFullFilter => 16,
            MessageModel::FullFilter(_) => 17,
            MessageModel::GetMemFilters => 18,
            MessageModel::MemFilters(_) => 19,
            MessageModel::GetMempool(_) => 20,
            MessageModel::MempoolChunk(_) => 21,
        }
    }

    /// The wire form of the body; empty for a message without one.
    pub open spec fn payload(self) -> Seq<u8> {
        match self {
            MessageModel::Version(msg) => VersionMessage::wire(msg),
            MessageModel::VersionAck => Seq::empty(),
            MessageModel::GetFilters(msg) => FiltersReq::wire(msg),
            MessageModel::Filters(msg) => FiltersResp::wire(msg),
            MessageModel::Filter(msg) => FilterEvent::wire(msg),
            MessageModel::GetPeers => Seq::empty(),
            MessageModel::Peers(list) => wire_list::<Address>(list),
            MessageModel::GetFee(list) => wire_list::<Currency>(list),
            MessageModel::Fee(list) => wire_list::<FeeResp>(list),
            MessageModel::PeerIntroduce(list) => wire_list::<Address>(list),
            MessageModel::Reject(msg) => RejectMessage::wire(msg),
            MessageModel::Ping(nonce) => nonce,
            MessageModel::Pong(nonce) => nonce,
            MessageModel::GetRates(list) => wire_list::<RateReq>(list),
            MessageModel::Rates(list) => wire_list::<RateResp>(list),
            MessageModel::FullFilterInv => Seq::empty(),
            MessageModel::GetFullFilter => Seq::empty(),
            MessageModel::FullFilter(filter) => MemFilter::wire(filter),
            MessageModel::GetMemFilters => Seq::empty(),
            MessageModel::MemFilters(list) => wire_list::<FilterPrefixPair>(list),
            MessageModel::GetMempool(list) => wire_list::<TxPrefix>(list),
            MessageModel::MempoolChunk(msg) => MempoolChunkResp::wire(msg),
        }
    }

    /// The message on the wire: identifier, and for a message with a body
    /// the payload's length and the payload.
    pub open spec fn wire(self) -> Seq<u8> {
        wire_frame(self.id(), self.payload())
    }

    /// The message may be written: no fee response pairs Bitcoin's fee
    /// scheme with another currency.
    pub open spec fn encodable(self) -> bool {
        self matches MessageModel::Fee(list) ==> all_encodable::<FeeResp>(list)
    }

    /// The body is canonical.
    pub open spec fn canonical_body(self) -> bool {
        match self {
            MessageModel::Version(msg) => VersionMessage::canonical(msg),
            MessageModel::VersionAck => true,
            MessageModel::GetFilters(msg) => FiltersReq::canonical(msg),
            MessageModel::Filters(msg) => FiltersResp::canonical(msg),
            MessageModel::Filter(msg) => FilterEvent::canonical(msg),
            MessageModel::GetPeers => true,
            MessageModel::Peers(list) => LengthVec::<Address>::canonical(list),
            MessageModel::GetFee(list) => LengthVec::<Currency>::canonical(list),
            MessageModel::Fee(list) => LengthVec::<FeeResp>::canonical(list),
            MessageModel::PeerIntroduce(list) => LengthVec::<Address>::canonical(list),
            MessageModel::Reject(msg) => RejectMessage::canonical(msg),
            MessageModel::Ping(nonce) => nonce.len() == NONCE_SIZE,
            MessageModel::Pong(nonce) => nonce.len() == NONCE_SIZE,
            MessageModel::GetRates(list) => LengthVec::<RateReq>::canonical(list),
            MessageModel::Rates(list) => LengthVec::<RateResp>::canonical(list),
            MessageModel::FullFilterInv => true,
            MessageModel::GetFullFilter => true,
            MessageModel::FullFilter(filter) => MemFilter::canonical(filter),
            MessageModel::GetMemFilters => true,
            MessageModel::MemFilters(list) => LengthVec::<FilterPrefixPair>::canonical(list),
            MessageModel::GetMempool(list) => LengthVec::<TxPrefix>::canonical(list),
            MessageModel::MempoolChunk(msg) => MempoolChunkResp::canonical(msg),
        }
    }

    /// The messages that read back as themselves: the body is canonical
    /// and the payload is no longer than a reader accepts.
    pub open spec fn canonical(self) -> bool {
        self.canonical_body() && self.payload().len() <= MAX_MESSAGE_SIZE
    }

    /// The encoder writes a gzip stream for what a bulk message holds. Of a
    /// message that is not a bulk message nothing is asked.
    pub open spec fn compressible(self) -> bool {
        match self {
            MessageModel::Filters(msg) => gzip_of(wire_seq::<Filter>(msg.filters)) is Some,
            MessageModel::MempoolChunk(msg) => gzip_of(wire_seq::<Vec<u8>>(msg.txs)) is Some,
            _ => true,
        }
    }

    /// The gzip layer compresses what a bulk message holds and gives it
    /// back. Of a message that is not a bulk message nothing is asked.
    pub open spec fn inflates(self) -> bool {
        match self {
            MessageModel::Filters(msg) => FiltersResp::inflates(msg),
            MessageModel::MempoolChunk(msg) => MempoolChunkResp::inflates(msg),
            _ => true,
        }
    }
}

/// An identifier and a payload on the wire.
pub open spec fn wire_frame(id: u32, payload: Seq<u8>) -> Seq<u8> {
    if carries_payload(id) {
        varint_wire(id as u64) + varint_wire(payload.len() as u64) + payload
    } else {
        varint_wire(id as u64)
    }
}

/// Takes the front of `s` apart into identifier and payload, and tells how
/// many bytes the message takes.
///
/// An identifier above 21 is refused before anything else is read,
/// however wide the integer is that holds it. A declared length above
/// [`MAX_MESSAGE_SIZE`] is refused whatever follows it, and one that is
/// longer than what is left of `s` is refused as truncated.
pub open spec fn parse_frame(s: Seq<u8>) -> Result<(u32, Seq<u8>, nat), Error> {
    match parse_varint(s) {
        Err(e) => Err(e),
        Ok((id, n)) => if id > LAST_MESSAGE_ID {
            Err(Error::MalformedHeader)
        } else if !carries_payload(id as u32) {
            Ok((id as u32, Seq::empty(), n))
        } else {
            match parse_varint(s.skip(n as int)) {
                Err(e) => Err(e),
                Ok((len, k)) => if len > MAX_MESSAGE_SIZE {
                    Err(Error::OversizedPayload)
                } else if s.len() - n - k < len {
                    Err(Error::TruncatedInput)
                } else {
                    Ok((id as u32, s.subrange((n + k) as int, n + k + len), n + k + len as nat))
                },
            }
        },
    }
}

/// The message that the payload of identifier `id` holds. The body must
/// fill the payload; only a ping, a pong and the bulk messages are read
/// otherwise: see [`parse_nonce`] and [`crate::bulk::parse_bulk`].
pub open spec fn parse_body(id: u32, payload: Seq<u8>) -> Result<MessageModel, Error> {
    if id == 0 {
        match parse_exact::<VersionMessage>(payload) {
            Err(e) => Err(e),
            Ok(msg) => Ok(MessageModel::Version(msg)),
        }
    } else if id == 1 {
        Ok(MessageModel::VersionAck)
    } else if id == 2 {
        match parse_exact::<FiltersReq>(payload) {
            Err(e) => Err(e),
            Ok(msg) => Ok(MessageModel::GetFilters(msg)),
        }
    } else if id == 3 {
        match FiltersResp::parse(payload) {
            Err(e) => Err(e),
            Ok(msg) => Ok(MessageModel::Filters(msg)),
        }
    } else if id == 4 {
        match parse_exact::<FilterEvent>(payload) {
            Err(e) => Err(e),
            Ok(msg) => Ok(MessageModel::Filter(msg)),
        }
    } else if id == 5 {
        Ok(MessageModel::GetPeers)
    } else if id == 6 {
        match parse_exact::<LengthVec<Address>>(payload) {
            Err(e) => Err(e),
            Ok(list) => Ok(MessageModel::Peers(list)),
        }
    } else if id == 7 {
        match parse_exact::<LengthVec<Currency>>(payload) {
            Err(e) => Err(e),
            Ok(list) => Ok(MessageModel::GetFee(list)),
        }
    } else if id == 8 {
        match parse_exact::<LengthVec<FeeResp>>(payload) {
            Err(e) => Err(e),
            Ok(list) => Ok(MessageModel::Fee(list)),
        }
    } else if id == 9 {
        match parse_exact::<LengthVec<Address>>(payload) {
            Err(e) => Err(e),
            Ok(list) => Ok(MessageModel::PeerIntroduce(list)),
        }
    } else if id == 10 {
        match parse_exact::<RejectMessage>(payload) {
            Err(e) => Err(e),
            Ok(msg) => Ok(MessageModel::Reject(msg)),
        }
    } else if id == 11 {
        match parse_nonce(payload) {
            Err(e) => Err(e),
            Ok(nonce) => Ok(MessageModel::Ping(nonce)),
        }
    } else if id == 12 {
        match parse_nonce(payload) {
            Err(e) => Err(e),
            Ok(nonce) => Ok(MessageModel::Pong(nonce)),
        }
    } else if id == 13 {
        match parse_exact::<LengthVec<RateReq>>(payload) {
            Err(e) => Err(e),
            Ok(list) => Ok(MessageModel::GetRates(list)),
        }
    } else if id == 14 {
        match parse_exact::<LengthVec<RateResp>>(payload) {
            Err(e) => Err(e),
            Ok(list) => Ok(MessageModel::Rates(list)),
        }
    } else if id == 15 {
        Ok(MessageModel::FullFilterInv)
    } else if id == 16 {
        Ok(MessageModel::GetFullFilter)
    } else if id == 17 {
        match parse_exact::<MemFilter>(payload) {
            Err(e) => Err(e),
            Ok(filter) => Ok(MessageModel::FullFilter(filter)),
        }
    } else if id == 18 {
        Ok(MessageModel::GetMemFilters)
    } else if id == 19 {
        match parse_exact::<LengthVec<FilterPrefixPair>>(payload) {
            Err(e) => Err(e),
            Ok(list) => Ok(MessageModel::MemFilters(list)),
        }
    } else if id == 20 {
        match parse_exact::<LengthVec<TxPrefix>>(payload) {
            Err(e) => Err(e),
            Ok(list) => Ok(MessageModel::GetMempool(list)),
        }
    } else if id == 21 {
        match MempoolChunkResp::parse(payload) {
            Err(e) => Err(e),
            Ok(msg) => Ok(MessageModel::MempoolChunk(msg)),
        }
    } else {
        Err(Error::MalformedHeader)
    }
}

/// Reads one message from the front of `s`, with the number of bytes it
/// takes: first the frame, then the body from the payload.
pub open spec fn parse_message(s: Seq<u8>) -> Result<(MessageModel, nat), Error> {
    match parse_frame(s) {
        Err(e) => Err(e),
        Ok((id, payload, n)) => match parse_body(id, payload) {
            Err(e) => Err(e),
            Ok(msg) => Ok((msg, n)),
        },
    }
}

/// Reads one message that must fill `s` to its end.
pub open spec fn parse_message_exact(s: Seq<u8>) -> Result<MessageModel, Error> {
    match parse_message(s) {
        Err(e) => Err(e),
        Ok((msg, n)) => if n == s.len() {
            Ok(msg)
        } else {
            Err(Error::TrailingBytes)
        },
    }
}

/// The human readable name of a message identifier: every identifier of
/// the protocol has one, and no other number has.
pub open spec fn spec_name_from_id(i: u32) -> Option<Seq<char>> {
    if i == 0 {
        Some("version"@)
    } else if i == 1 {
        Some("version ack"@)
    } else if i == 2 {
        Some("req filters"@)
    } else if i == 3 {
        Some("filters"@)
    } else if i == 4 {
        Some("filter"@)
    } else if i == 5 {
        Some("req peers"@)
    } else if i == 6 {
        Some("peers"@)
    } else if i == 7 {
        Some("req fee"@)
    } else if i == 8 {
        Some("fee"@)
    } else if i == 9 {
        Some("peer announce"@)
    } else if i == 10 {
        Some("reject"@)
    } else if i == 11 {
        Some("ping"@)
    } else if i == 12 {
        Some("pong"@)
    } else if i == 13 {
        Some("req rates"@)
    } else if i == 14 {
        Some("rates"@)
    } else if i == 15 {
        Some("full filter inv"@)
    } else if i == 16 {
        Some("get full filter"@)
    } else if i == 17 {
        Some("full fulter"@)
    } else if i == 18 {
        Some("get mempool filters"@)
    } else if i == 19 {
        Some("mempool filters"@)
    } else if i == 20 {
        Some("get mempool"@)
    } else if i == 21 {
        Some("mempool chunk"@)
    } else {
        None
    }
}

/// Every identifier of the protocol has a name, no other number has one,
/// and no name is empty.
pub proof fn lemma_names(i: u32)
    ensures
        spec_name_from_id(i) is Some <==> i <= LAST_MESSAGE_ID,
        spec_name_from_id(i) matches Some(name) ==> name.len() > 0,
{
    reveal_strlit("version");
    reveal_strlit("version ack");
    reveal_strlit("req filters");
    reveal_strlit("filters");
    reveal_strlit("filter");
    reveal_strlit("req peers");
    reveal_strlit("peers");
    reveal_strlit("req fee");
    reveal_strlit("fee");
    reveal_strlit("peer announce");
    reveal_strlit("reject");
    reveal_strlit("ping");
    reveal_strlit("pong");
    reveal_strlit("req rates");
    reveal_strlit("rates");
    reveal_strlit("full filter inv");
    reveal_strlit("get full filter");
    reveal_strlit("full fulter");
    reveal_strlit("get mempool filters");
    reveal_strlit("mempool filters");
    reveal_strlit("get mempool");
    reveal_strlit("mempool chunk");
}

/// Tells whether every fee response of the list may be written.
fn fees_consistent(list: &[FeeResp]) -> (r: bool)
    ensures
        r == all_encodable::<FeeResp>(seq_view(list@)),
{
    let mut i: usize = 0;
    while i < list.len()
        invariant
            i <= list@.len(),
            forall|j: int| 0 <= j < i ==> FeeResp::encodable(#[trigger] seq_view(list@)[j]),
        decreases list@.len() - i,
    {
        if !list[i].is_consistent() {
            assert(!FeeResp::encodable(seq_view(list@)[i as int]));
            return false;
        }
        i += 1;
    }
    true
}

/// Appends a payload behind its length.
fn write_payload(out: &mut Vec<u8>, payload: &[u8])
    ensures
        final(out)@ == old(out)@ + varint_wire(payload@.len() as u64) + payload@,
{
    put_varint(out, payload.len() as u64);
    put_bytes(out, payload);
}

/// Reads a declared length and takes that many bytes as the payload; also
/// tells how many bytes length and payload take together. The length is
/// held against [`MAX_MESSAGE_SIZE`] before a byte of the payload is
/// looked at.
fn read_payload(buf: &[u8]) -> (r: Result<(&[u8], usize), Error>)
    ensures
        r matches Ok((payload, used)) ==> {
            &&& parse_varint(buf@) matches Ok((len, k))
            &&& len <= MAX_MESSAGE_SIZE
            &&& buf@.len() - k >= len
            &&& used == k + len
            &&& payload@ == buf@.subrange(k as int, k + len)
        },
        r matches Err(e) ==> match parse_varint(buf@) {
            Err(inner) => e == inner,
            Ok((len, k)) => if len > MAX_MESSAGE_SIZE {
                e == Error::OversizedPayload
            } else {
                e == Error::TruncatedInput && buf@.len() - k < len
            },
        },
{
    let (len, k) = get_varint(buf)?;
    if len > MAX_MESSAGE_SIZE as u64 {
        return Err(Error::OversizedPayload);
    }
    if ((buf.len() - k) as u64) < len {
        return Err(Error::TruncatedInput);
    }
    let end = k + len as usize;
    Ok((vstd::slice::slice_subrange(buf, k, end), end))
}

/// The list as a payload of its own.
fn list_payload<T: Wire>(list: &[T]) -> (payload: Vec<u8>)
    requires
        all_encodable::<T>(seq_view(list@)),
    ensures
        payload@ == wire_list::<T>(seq_view(list@)),
{
    let mut payload: Vec<u8> = Vec::new();
    encode_list(list, &mut payload);
    assert(Seq::<u8>::empty() + wire_list::<T>(seq_view(list@)) =~= wire_list::<T>(
        seq_view(list@),
    ));
    payload
}

/// Reads a list that must fill the payload.
fn list_of_payload<T: Wire>(payload: &[u8]) -> (r: Result<Vec<T>, Error>)
    ensures
        r matches Ok(list) ==> parse_exact::<LengthVec<T>>(payload@) == Ok::<Seq<T::V>, Error>(
            seq_view(list@),
        ),
        r matches Err(e) ==> parse_exact::<LengthVec<T>>(payload@) == Err::<Seq<T::V>, Error>(e),
{
    let list = deserialize::<LengthVec<T>>(payload)?;
    Ok(list.0)
}

/// Reads the nonce of a ping or a pong from its payload.
fn nonce_of_payload(payload: &[u8]) -> (r: Result<[u8; 8], Error>)
    ensures
        r matches Ok(nonce) ==> parse_nonce(payload@) == Ok::<Seq<u8>, Error>(nonce@),
        r matches Err(e) ==> parse_nonce(payload@) == Err::<Seq<u8>, Error>(e),
{
    let (nonce, _) = <[u8; 8] as Wire>::consensus_decode(payload)?;
    Ok(nonce)
}

impl Message {
    /// The identifier that leads the message on the wire.
    pub fn id(&self) -> (r: u32)
        ensures
            r == self@.id(),
            r <= LAST_MESSAGE_ID,
    {
        match self {
            Message::Version(_) => 0,
            Message::VersionAck => 1,
            Message::GetFilters(_) => 2,
            Message::Filters(_) => 3,
            Message::Filter(_) => 4,
            Message::GetPeers => 5,
            Message::Peers(_) => 6,
            Message::GetFee(_) => 7,
            Message::Fee(_) => 8,
            Message::PeerIntroduce(_) => 9,
            Message::Reject(_) => 10,
            Message::Ping(_) => 11,
            Message::Pong(_) => 12,
            Message::GetRates(_) => 13,
            Message::Rates(_) => 14,
            Message::FullFilterInv => 15,
            Message::GetFullFilter => 16,
            Message::FullFilter(_) => 17,
            Message::GetMemFilters => 18,
            Message::MemFilters(_) => 19,
            Message::GetMempool(_) => 20,
            Message::MempoolChunk(_) => 21,
        }
    }

    /// Get human readable name of message by its type id
    pub fn name_from_id(i: u32) -> (r: Option<&'static str>)
        ensures
            r matches Some(name) ==> spec_name_from_id(i) == Some(name@),
            r is None ==> spec_name_from_id(i) is None,
            r is Some <==> i <= LAST_MESSAGE_ID,
    {
        match i {
            0 => Some("version"),
            1 => Some("version ack"),
            2 => Some("req filters"),
            3 => Some("filters"),
            4 => Some("filter"),
            5 => Some("req peers"),
            6 => Some("peers"),
            7 => Some("req fee"),
            8 => Some("fee"),
            9 => Some("peer announce"),
            10 => Some("reject"),
            11 => Some("ping"),
            12 => Some("pong"),
            13 => Some("req rates"),
            14 => Some("rates"),
            15 => Some("full filter inv"),
            16 => Some("get full filter"),
            17 => Some("full fulter"),
            18 => Some("get mempool filters"),
            19 => Some("mempool filters"),
            20 => Some("get mempool"),
            21 => Some("mempool chunk"),
            _ => None,
        }
    }

    /// Tells whether the message may be written: see
    /// [`MessageModel::encodable`].
    pub fn is_encodable(&self) -> (r: bool)
        ensures
            r == self@.encodable(),
    {
        match self {
            Message::Fee(list) => fees_consistent(list.as_slice()),
            _ => true,
        }
    }

    /// The wire form of the body, for a message that has one.
    fn payload(&self) -> (r: Result<Option<Vec<u8>>, Error>)
        requires
            self@.encodable(),
        ensures
            r matches Ok(Some(bytes)) ==> carries_payload(self@.id()) && bytes@ == self@.payload()
                && self@.inflates(),
            r matches Ok(None) ==> !carries_payload(self@.id()),
            r matches Err(e) ==> e == Error::CompressionFailure && !self@.compressible(),
    {
        match self {
            Message::Version(msg) => Ok(Some(serialize(msg))),
            Message::VersionAck => Ok(None),
            Message::GetFilters(msg) => Ok(Some(serialize(msg))),
            Message::Filters(msg) => Ok(Some(msg.consensus_encode()?)),
            Message::Filter(msg) => Ok(Some(serialize(msg))),
            Message::GetPeers => Ok(None),
            Message::Peers(list) => Ok(Some(list_payload(list.as_slice()))),
            Message::GetFee(list) => Ok(Some(list_payload(list.as_slice()))),
            Message::Fee(list) => Ok(Some(list_payload(list.as_slice()))),
            Message::PeerIntroduce(list) => Ok(Some(list_payload(list.as_slice()))),
            Message::Reject(msg) => Ok(Some(serialize(msg))),
            Message::Ping(nonce) => Ok(Some(serialize(nonce))),
            Message::Pong(nonce) => Ok(Some(serialize(nonce))),
            Message::GetRates(list) => Ok(Some(list_payload(list.as_slice()))),
            Message::Rates(list) => Ok(Some(list_payload(list.as_slice()))),
            Message::FullFilterInv => Ok(None),
            Message::GetFullFilter => Ok(None),
            Message::FullFilter(filter) => Ok(Some(serialize(filter))),
            Message::GetMemFilters => Ok(None),
            Message::MemFilters(list) => Ok(Some(list_payload(list.as_slice()))),
            Message::GetMempool(list) => Ok(Some(list_payload(list.as_slice()))),
            Message::MempoolChunk(msg) => Ok(Some(msg.consensus_encode()?)),
        }
    }

    /// Appends the message to `out`.
    ///
    /// It fails exactly where the message is not
    /// [`compressible`](MessageModel::compressible): a bulk message for
    /// whose items the encoder writes no gzip stream. The error is
    /// `CompressionFailure` then, and nothing is appended. What is appended
    /// otherwise is the wire form, and the gzip layer gives back what a
    /// bulk message holds, so that by [`lemma_message_roundtrip`] a
    /// canonical message reads back from it.
    pub fn consensus_encode(&self, out: &mut Vec<u8>) -> (r: Result<(), Error>)
        requires
            self@.encodable(),
        ensures
            r is Ok ==> final(out)@ == old(out)@ + self@.wire() && self@.inflates(),
            r matches Err(e) ==> e == Error::CompressionFailure && final(out)@ == old(out)@
                && !self@.compressible(),
    {
        let payload = self.payload()?;
        put_varint(out, self.id() as u64);
        match payload {
            Some(bytes) => {
                write_payload(out, bytes.as_slice());
            },
            None => {},
        }
        Ok(())
    }

    /// The message that the payload of identifier `id` holds. Its body is
    /// canonical.
    pub fn decode_body(id: u32, payload: &[u8]) -> (r: Result<Message, Error>)
        ensures
            r matches Ok(msg) ==> parse_body(id, payload@) == Ok::<MessageModel, Error>(msg@)
                && msg@.id() == id && msg@.canonical_body(),
            r matches Err(e) ==> parse_body(id, payload@) == Err::<MessageModel, Error>(e),
    {
        proof {
            lemma_parse_body_sound(id, payload@);
        }
        match id {
            0 => Ok(Message::Version(deserialize::<VersionMessage>(payload)?)),
            1 => Ok(Message::VersionAck),
            2 => Ok(Message::GetFilters(deserialize::<FiltersReq>(payload)?)),
            3 => Ok(Message::Filters(FiltersResp::consensus_decode(payload)?)),
            4 => Ok(Message::Filter(deserialize::<FilterEvent>(payload)?)),
            5 => Ok(Message::GetPeers),
            6 => Ok(Message::Peers(list_of_payload::<Address>(payload)?)),
            7 => Ok(Message::GetFee(list_of_payload::<Currency>(payload)?)),
            8 => Ok(Message::Fee(list_of_payload::<FeeResp>(payload)?)),
            9 => Ok(Message::PeerIntroduce(list_of_payload::<Address>(payload)?)),
            10 => Ok(Message::Reject(deserialize::<RejectMessage>(payload)?)),
            11 => Ok(Message::Ping(nonce_of_payload(payload)?)),
            12 => Ok(Message::Pong(nonce_of_payload(payload)?)),
            13 => Ok(Message::GetRates(list_of_payload::<RateReq>(payload)?)),
            14 => Ok(Message::Rates(list_of_payload::<RateResp>(payload)?)),
            15 => Ok(Message::FullFilterInv),
            16 => Ok(Message::GetFullFilter),
            17 => Ok(Message::FullFilter(deserialize::<MemFilter>(payload)?)),
            18 => Ok(Message::GetMemFilters),
            19 => Ok(Message::MemFilters(list_of_payload::<FilterPrefixPair>(payload)?)),
            20 => Ok(Message::GetMempool(list_of_payload::<TxPrefix>(payload)?)),
            21 => Ok(Message::MempoolChunk(MempoolChunkResp::consensus_decode(payload)?)),
            _ => Err(Error::MalformedHeader),
        }
    }

    /// Reads one message from the front of `buf`, with the number of bytes
    /// it takes. The body of a message that is read is canonical.
    pub fn consensus_decode(buf: &[u8]) -> (r: Result<(Message, usize), Error>)
        ensures
            r matches Ok((msg, n)) ==> parse_message(buf@) == Ok::<(MessageModel, nat), Error>(
                (msg@, n as nat),
            ) && 1 <= n <= buf@.len() && msg@.canonical_body(),
            r matches Err(e) ==> parse_message(buf@) == Err::<(MessageModel, nat), Error>(e),
    {
        let total = buf.len();
        let (wide, n) = get_varint(buf)?;
        if wide > LAST_MESSAGE_ID as u64 {
            return Err(Error::MalformedHeader);
        }
        let id: u32 = wide as u32;
        if id == 1 || id == 5 || id == 15 || id == 16 || id == 18 {
            let msg = Message::decode_body(id, tail(buf, buf.len()))?;
            assert(buf@.skip(buf@.len() as int) =~= Seq::<u8>::empty());
            return Ok((msg, n));
        }
        let (payload, used) = read_payload(tail(buf, n))?;
        proof {
            if let Ok((len, k)) = parse_varint(buf@.skip(n as int)) {
                assert(payload@ =~= buf@.subrange((n + k) as int, n + k + len));
            }
            assert(n + used <= total);
        }
        let msg = Message::decode_body(id, payload)?;
        Ok((msg, n + used))
    }

    /// The message on the wire, as a vector of its own. It fails exactly
    /// where the message is not
    /// [`compressible`](MessageModel::compressible), with
    /// `CompressionFailure`; bytes that come back read back as the message
    /// where it is canonical.
    pub fn serialize(&self) -> (r: Result<Vec<u8>, Error>)
        requires
            self@.encodable(),
        ensures
            r matches Ok(bytes) ==> {
                &&& bytes@ == self@.wire()
                &&& self@.inflates()
                &&& self@.canonical() ==> parse_message_exact(bytes@) == Ok::<MessageModel, Error>(
                    self@,
                )
            },
            r matches Err(e) ==> e == Error::CompressionFailure && !self@.compressible(),
    {
        let mut bytes: Vec<u8> = Vec::new();
        self.consensus_encode(&mut bytes)?;
        proof {
            assert(Seq::<u8>::empty() + self@.wire() =~= self@.wire());
            if self@.canonical() {
                lemma_message_roundtrip(self@, Seq::empty());
                assert(self@.wire() + Seq::<u8>::empty() =~= self@.wire());
            }
        }
        Ok(bytes)
    }

    /// Tells where the message at the front of `buf` ends, without reading
    /// its body: `Some` of the number of bytes that identifier, length and
    /// payload take, or `None` where `buf` ends before the frame does and
    /// more bytes have to arrive. A frame that can never become a message
    /// is an error.
    pub fn frame_extent(buf: &[u8]) -> (r: Result<Option<usize>, Error>)
        ensures
            match parse_frame(buf@) {
                Ok((_, _, n)) => r == Ok::<Option<usize>, Error>(Some(n as usize)) && 1 <= n
                    <= buf@.len(),
                Err(Error::TruncatedInput) => r == Ok::<Option<usize>, Error>(None),
                Err(e) => r == Err::<Option<usize>, Error>(e),
            },
    {
        let total = buf.len();
        let (wide, n) = match get_varint(buf) {
            Ok(pair) => pair,
            Err(Error::TruncatedInput) => {
                return Ok(None);
            },
            Err(e) => {
                return Err(e);
            },
        };
        if wide > LAST_MESSAGE_ID as u64 {
            return Err(Error::MalformedHeader);
        }
        let id: u32 = wide as u32;
        if id == 1 || id == 5 || id == 15 || id == 16 || id == 18 {
            return Ok(Some(n));
        }
        match read_payload(tail(buf, n)) {
            Ok((_, used)) => {
                assert(n + used <= total);
                Ok(Some(n + used))
            },
            Err(Error::TruncatedInput) => Ok(None),
            Err(e) => Err(e),
        }
    }

    /// Reads one message that must fill `bytes` to the end.
    pub fn deserialize(bytes: &[u8]) -> (r: Result<Message, Error>)
        ensures
            r matches Ok(msg) ==> parse_message_exact(bytes@) == Ok::<MessageModel, Error>(msg@),
            r matches Err(e) ==> parse_message_exact(bytes@) == Err::<MessageModel, Error>(e),
    {
        let (msg, n) = Message::consensus_decode(bytes)?;
        if n == bytes.len() {
            Ok(msg)
        } else {
            Err(Error::TrailingBytes)
        }
    }
}

/// An identifier and a payload read back from their frame, whatever
/// follows it, as long as the payload is no longer than a reader accepts.
pub proof fn lemma_frame_roundtrip(id: u32, payload: Seq<u8>, rest: Seq<u8>)
    requires
        id <= LAST_MESSAGE_ID,
        payload.len() <= MAX_MESSAGE_SIZE,
        !carries_payload(id) ==> payload.len() == 0,
    ensures
        parse_frame(wire_frame(id, payload) + rest) == Ok::<(u32, Seq<u8>, nat), Error>(
            (id, payload, wire_frame(id, payload).len()),
        ),
{
    let head = varint_wire(id as u64);
    let s = wire_frame(id, payload) + rest;
    if carries_payload(id) {
        let len = varint_wire(payload.len() as u64);
        lemma_varint_roundtrip(id as u64, len + payload + rest);
        assert(s =~= head + (len + payload + rest));
        assert(s.skip(head.len() as int) =~= len + (payload + rest));
        lemma_varint_roundtrip(payload.len() as u64, payload + rest);
        let start = (head.len() + len.len()) as int;
        assert(s.subrange(start, start + payload.len()) =~= payload);
    } else {
        lemma_varint_roundtrip(id as u64, rest);
        assert(payload =~= Seq::<u8>::empty());
    }
}

/// The body of a canonical message reads back from its payload, provided
/// that the gzip layer gives back what a bulk message holds.
pub proof fn lemma_body_roundtrip(m: MessageModel)
    requires
        m.canonical_body(),
        m.inflates(),
    ensures
        parse_body(m.id(), m.payload()) == Ok::<MessageModel, Error>(m),
{
    match m {
        MessageModel::Version(msg) => lemma_exact_roundtrip::<VersionMessage>(msg),
        MessageModel::VersionAck => {},
        MessageModel::GetFilters(msg) => lemma_exact_roundtrip::<FiltersReq>(msg),
        MessageModel::Filters(msg) => FiltersResp::lemma_roundtrip(msg),
        MessageModel::Filter(msg) => lemma_exact_roundtrip::<FilterEvent>(msg),
        MessageModel::GetPeers => {},
        MessageModel::Peers(list) => lemma_exact_roundtrip::<LengthVec<Address>>(list),
        MessageModel::GetFee(list) => lemma_exact_roundtrip::<LengthVec<Currency>>(list),
        MessageModel::Fee(list) => lemma_exact_roundtrip::<LengthVec<FeeResp>>(list),
        MessageModel::PeerIntroduce(list) => lemma_exact_roundtrip::<LengthVec<Address>>(list),
        MessageModel::Reject(msg) => lemma_exact_roundtrip::<RejectMessage>(msg),
        MessageModel::Ping(nonce) => {
            assert(nonce.take(NONCE_SIZE as int) =~= nonce);
        },
        MessageModel::Pong(nonce) => {
            assert(nonce.take(NONCE_SIZE as int) =~= nonce);
        },
        MessageModel::GetRates(list) => lemma_exact_roundtrip::<LengthVec<RateReq>>(list),
        MessageModel::Rates(list) => lemma_exact_roundtrip::<LengthVec<RateResp>>(list),
        MessageModel::FullFilterInv => {},
        MessageModel::GetFullFilter => {},
        MessageModel::FullFilter(filter) => lemma_exact_roundtrip::<MemFilter>(filter),
        MessageModel::GetMemFilters => {},
        MessageModel::MemFilters(list) => lemma_exact_roundtrip::<LengthVec<FilterPrefixPair>>(
            list,
        ),
        MessageModel::GetMempool(list) => lemma_exact_roundtrip::<LengthVec<TxPrefix>>(list),
        MessageModel::MempoolChunk(msg) => MempoolChunkResp::lemma_roundtrip(msg),
    }
}

/// What is read from a payload carries the identifier that led it and has
/// a canonical body; so, by [`lemma_body_roundtrip`], it reads back as
/// itself from its own payload.
pub proof fn lemma_parse_body_sound(id: u32, payload: Seq<u8>)
    ensures
        parse_body(id, payload) matches Ok(m) ==> m.id() == id && m.canonical_body(),
{
    if id == 0 {
        lemma_parse_exact_sound::<VersionMessage>(payload);
    } else if id == 2 {
        lemma_parse_exact_sound::<FiltersReq>(payload);
    } else if id == 3 {
        FiltersResp::lemma_parse_sound(payload);
    } else if id == 4 {
        lemma_parse_exact_sound::<FilterEvent>(payload);
    } else if id == 6 || id == 9 {
        lemma_parse_exact_sound::<LengthVec<Address>>(payload);
    } else if id == 7 {
        lemma_parse_exact_sound::<LengthVec<Currency>>(payload);
    } else if id == 8 {
        lemma_parse_exact_sound::<LengthVec<FeeResp>>(payload);
    } else if id == 10 {
        lemma_parse_exact_sound::<RejectMessage>(payload);
    } else if id == 13 {
        lemma_parse_exact_sound::<LengthVec<RateReq>>(payload);
    } else if id == 14 {
        lemma_parse_exact_sound::<LengthVec<RateResp>>(payload);
    } else if id == 17 {
        lemma_parse_exact_sound::<MemFilter>(payload);
    } else if id == 19 {
        lemma_parse_exact_sound::<LengthVec<FilterPrefixPair>>(payload);
    } else if id == 20 {
        lemma_parse_exact_sound::<LengthVec<TxPrefix>>(payload);
    } else if id == 21 {
        MempoolChunkResp::lemma_parse_sound(payload);
    }
}

/// Round trip: a canonical message reads back from its wire form as
/// itself, whatever follows it on the wire. For a bulk message this rests
/// on the gzip layer giving back what was compressed, which
/// [`Message::consensus_encode`] establishes of every message it writes.
pub proof fn lemma_message_roundtrip(m: MessageModel, rest: Seq<u8>)
    requires
        m.canonical(),
        m.inflates(),
    ensures
        parse_message(m.wire() + rest) == Ok::<(MessageModel, nat), Error>((m, m.wire().len())),
{
    lemma_frame_roundtrip(m.id(), m.payload(), rest);
    lemma_body_roundtrip(m);
}

/// Closed set of messages: an identifier above 21 is refused as a
/// malformed header, however wide the integer is that holds it and
/// whatever follows it; nothing behind the identifier is looked at.
pub proof fn lemma_unknown_id_refused(id: u64, rest: Seq<u8>)
    requires
        id > LAST_MESSAGE_ID,
    ensures
        parse_message(varint_wire(id) + rest) == Err::<(MessageModel, nat), Error>(
            Error::MalformedHeader,
        ),
{
    lemma_varint_roundtrip(id, rest);
}

/// Size limit: a frame that declares a payload longer than
/// [`MAX_MESSAGE_SIZE`] is refused as oversized whatever follows the
/// declared length, be it the whole payload, a part of it, or nothing.
pub proof fn lemma_oversized_refused(id: u32, declared: u64, rest: Seq<u8>)
    requires
        carries_payload(id),
        declared > MAX_MESSAGE_SIZE,
    ensures
        parse_message(varint_wire(id as u64) + varint_wire(declared) + rest) == Err::<
            (MessageModel, nat),
            Error,
        >(Error::OversizedPayload),
{
    let head = varint_wire(id as u64);
    let len = varint_wire(declared);
    let s = head + len + rest;
    lemma_varint_roundtrip(id as u64, len + rest);
    assert(s =~= head + (len + rest));
    assert(s.skip(head.len() as int) =~= len + rest);
    lemma_varint_roundtrip(declared, rest);
}

} // verus!
