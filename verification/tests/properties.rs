use ergvein_protocol::address::ipv6_to_be;
use ergvein_protocol::bulk::{pack_items, unpack_items};
use ergvein_protocol::compress::{compress_bytes, decompress_bytes};
use ergvein_protocol::message::{
    deserialize, deserialize_partial, serialize, Address, Currency, Error, FeeBtc, FeeOther,
    FeeResp, Fiat, FiatRate, Filter, FilterEvent, FilterPrefixPair, FiltersReq, FiltersResp,
    LengthVec, MemFilter, MempoolChunkResp, Message, Rate, RateReq, RateResp, RejectData,
    RejectMessage, ScanBlock, TxPrefix, VarInt, Version, VersionMessage, MAX_MESSAGE_SIZE,
};

fn from_hex(text: &str) -> Vec<u8> {
    assert!(text.len() % 2 == 0);
    (0..text.len() / 2)
        .map(|i| u8::from_str_radix(&text[2 * i..2 * i + 2], 16).unwrap())
        .collect()
}

fn round_trip(msg: &Message) {
    assert!(msg.is_encodable());
    let bytes = msg.serialize().unwrap();
    assert_eq!(&Message::deserialize(&bytes).unwrap(), msg);
    let mut followed = bytes.clone();
    followed.extend_from_slice(&[0xAA, 0xBB, 0xCC]);
    let (again, used) = Message::consensus_decode(&followed).unwrap();
    assert_eq!(&again, msg);
    assert_eq!(used, bytes.len());
}

fn sample_filter(tag: u8, body: &[u8]) -> Filter {
    Filter {
        block_id: vec![tag; 32],
        filter: body.to_vec(),
    }
}

fn every_kind_of_message() -> Vec<Message> {
    vec![
        Message::Version(VersionMessage {
            version: Version::current(),
            time: 1_700_000_000,
            nonce: [9, 8, 7, 6, 5, 4, 3, 2],
            scan_blocks: vec![ScanBlock {
                currency: Currency::Unknown(77),
                version: Version { major: 1023, minor: 0, patch: 1023 },
                scan_height: u64::MAX,
                height: 0,
            }],
        }),
        Message::VersionAck,
        Message::GetFilters(FiltersReq { currency: Currency::Ltc, start: 1, amount: u32::MAX }),
        Message::Filters(FiltersResp {
            currency: Currency::TBtc,
            filters: vec![sample_filter(1, b"abc"), sample_filter(0, &[0, 0, 0, 0])],
        }),
        Message::Filter(FilterEvent {
            currency: Currency::Zec,
            height: 70_000,
            block_id: vec![3; 32],
            filter: vec![],
        }),
        Message::GetPeers,
        Message::Peers(vec![
            Address::Ipv4([10, 0, 0, 1], 0),
            Address::Ipv6([0xfe80, 0, 0, 0, 0, 0, 0, 0x00ff], 65535),
            Address::OnionV3([0; 56], 80),
        ]),
        Message::GetFee(vec![Currency::Btc, Currency::Unknown(14), Currency::TDash]),
        Message::Fee(vec![
            FeeResp::Btc((
                Currency::TBtc,
                FeeBtc {
                    fast_conserv: 1,
                    fast_econom: 252,
                    moderate_conserv: 253,
                    moderate_econom: 65536,
                    cheap_conserv: 1 << 32,
                    cheap_econom: u64::MAX,
                },
            )),
            FeeResp::Other((Currency::Unknown(1000), FeeOther { fast: 3, moderate: 2, cheap: 1 })),
        ]),
        Message::PeerIntroduce(vec![]),
        Message::Reject(RejectMessage {
            id: 21,
            data: RejectData::Unknown(5),
            message: "h\u{e9}llo \u{2713}".to_string(),
        }),
        Message::Ping([0; 8]),
        Message::Pong([255; 8]),
        Message::GetRates(vec![RateReq { currency: Currency::Ergo, fiats: vec![] }]),
        Message::Rates(vec![RateResp {
            currency: Currency::Ergo,
            rates: vec![FiatRate { fiat: Fiat::Unknown(3), rate: Rate::new(u64::MAX) }],
        }]),
        Message::FullFilterInv,
        Message::GetFullFilter,
        Message::FullFilter(MemFilter(vec![1, 2, 3])),
        Message::GetMemFilters,
        Message::MemFilters(vec![FilterPrefixPair {
            prefix: TxPrefix([1, 2]),
            filter: MemFilter(vec![]),
        }]),
        Message::GetMempool(vec![TxPrefix([0, 0]), TxPrefix([255, 255])]),
        Message::MempoolChunk(MempoolChunkResp {
            prefix: TxPrefix([7, 7]),
            txs: vec![vec![], vec![0], vec![1; 300]],
        }),
    ]
}

#[test]
fn every_message_kind_reads_back() {
    let all = every_kind_of_message();
    assert_eq!(all.len(), 22);
    for (i, msg) in all.iter().enumerate() {
        assert_eq!(msg.id(), i as u32);
        round_trip(msg);
    }
}

#[test]
fn messages_without_body_are_one_byte() {
    for (msg, byte) in [
        (Message::VersionAck, 1u8),
        (Message::GetPeers, 5),
        (Message::FullFilterInv, 15),
        (Message::GetFullFilter, 16),
        (Message::GetMemFilters, 18),
    ] {
        assert_eq!(msg.serialize().unwrap(), vec![byte]);
        assert_eq!(Message::consensus_decode(&[byte, 0xFF]).unwrap(), (msg, 1));
    }
}

#[test]
fn two_messages_in_a_row() {
    let mut bytes = Message::Ping([1; 8]).serialize().unwrap();
    let first = bytes.len();
    bytes.extend(Message::VersionAck.serialize().unwrap());
    let (a, n) = Message::consensus_decode(&bytes).unwrap();
    assert_eq!((a, n), (Message::Ping([1; 8]), first));
    let (b, k) = Message::consensus_decode(&bytes[n..]).unwrap();
    assert_eq!((b, k), (Message::VersionAck, 1));
    assert_eq!(Message::deserialize(&bytes), Err(Error::TrailingBytes));
}

#[test]
fn varint_widths() {
    for (value, hex) in [
        (0u64, "00"),
        (0xFC, "fc"),
        (0xFD, "fdfd00"),
        (0xFFFF, "fdffff"),
        (0x1_0000, "fe00000100"),
        (0xFFFF_FFFF, "feffffffff"),
        (0x1_0000_0000, "ff0000000001000000"),
        (u64::MAX, "ffffffffffffffffff"),
    ] {
        let bytes = from_hex(hex);
        assert_eq!(serialize(&VarInt(value)), bytes);
        assert_eq!(deserialize_partial::<VarInt>(&bytes), Ok((VarInt(value), bytes.len())));
    }
}

#[test]
fn varint_refuses_wide_and_short_forms() {
    for hex in ["fdfc00", "fd0000", "feffff0000", "ffffffffff00000000"] {
        assert_eq!(deserialize::<VarInt>(&from_hex(hex)), Err(Error::NonMinimalVarInt));
    }
    for hex in ["", "fd", "fdfd", "fe000001", "ff00000000010000"] {
        assert_eq!(deserialize::<VarInt>(&from_hex(hex)), Err(Error::TruncatedInput));
    }
}

#[test]
fn version_packs_ten_bits_per_field() {
    let top = Version { major: 1023, minor: 1023, patch: 1023 };
    assert_eq!(top.pack(), 0xFFFF_FFFC);
    assert_eq!(Version::unpack(0xFFFF_FFFF), top);
    assert_eq!(Version { major: 1, minor: 0, patch: 0 }.pack(), 4);
    assert_eq!(Version { major: 0, minor: 1, patch: 0 }.pack(), 1 << 12);
    assert_eq!(Version { major: 0, minor: 0, patch: 1 }.pack(), 1 << 22);
    for v in [
        Version { major: 0, minor: 0, patch: 0 },
        Version { major: 1, minor: 2, patch: 4 },
        Version { major: 1023, minor: 512, patch: 1 },
        top,
    ] {
        assert_eq!(Version::unpack(v.pack()), v);
        assert_eq!(Version::unpack_be(v.pack_be()), v);
    }
}

#[test]
fn version_drops_high_bits() {
    let wide = Version { major: 1024, minor: 1025, patch: 0xFFFF };
    assert_eq!(wide.pack(), Version { major: 0, minor: 1, patch: 1023 }.pack());
    assert_eq!(Version::unpack(wide.pack()), Version { major: 0, minor: 1, patch: 1023 });
}

#[test]
fn version_goes_most_significant_byte_first() {
    let v = Version { major: 1, minor: 2, patch: 4 };
    assert_eq!(v.pack_be(), 0x0420_0001);
    assert_eq!(serialize(&v), vec![0x01, 0x00, 0x20, 0x04]);
    assert_eq!(deserialize::<Version>(&[0x01, 0x00, 0x20, 0x04]), Ok(v));
    assert_eq!(deserialize::<Version>(&[0x01, 0x00, 0x20]), Err(Error::TruncatedInput));
}

#[test]
fn version_compatibility_goes_by_major() {
    let one = |minor, patch| Version { major: 1, minor, patch };
    assert!(one(0, 0).compatible(&one(7, 9)));
    assert!(one(1023, 3).compatible(&one(0, 0)));
    assert!(!one(0, 0).compatible(&Version { major: 2, minor: 0, patch: 0 }));
    assert!(!Version::current().compatible(&one(0, 0)));
    assert_eq!(Version::default(), Version::current());
    assert_eq!(Version::current(), Version { major: 2, minor: 0, patch: 0 });
}

#[test]
fn currency_table() {
    let table = [
        Currency::Btc,
        Currency::TBtc,
        Currency::Ergo,
        Currency::TErgo,
        Currency::UsdtOmni,
        Currency::TUsdtOmni,
        Currency::Ltc,
        Currency::TLtc,
        Currency::Zec,
        Currency::TZec,
        Currency::Cpr,
        Currency::TCpr,
        Currency::Dash,
        Currency::TDash,
    ];
    for (i, c) in table.iter().enumerate() {
        assert_eq!(c.as_index(), i as u32);
        assert_eq!(Currency::from_index(i as u32), *c);
        assert_eq!(serialize(c), vec![i as u8]);
    }
    assert_eq!(Currency::default(), Currency::Btc);
    assert_eq!(Currency::Dash.label(), "Dash");
    assert_eq!(Currency::Unknown(99).label(), "Unknown currency");
}

#[test]
fn unknown_indices_survive() {
    for i in [14u32, 15, 252, 253, 65535, 65536, u32::MAX] {
        assert_eq!(Currency::from_index(i), Currency::Unknown(i));
        assert_eq!(Currency::Unknown(i).as_index(), i);
        let bytes = serialize(&Currency::Unknown(i));
        assert_eq!(bytes, serialize(&VarInt(i as u64)));
        assert_eq!(deserialize::<Currency>(&bytes), Ok(Currency::Unknown(i)));
    }
    for i in [3u32, 4, 1000, u32::MAX] {
        assert_eq!(Fiat::from_index(i), Fiat::Unknown(i));
        let bytes = serialize(&Fiat::Unknown(i));
        assert_eq!(deserialize::<Fiat>(&bytes), Ok(Fiat::Unknown(i)));
    }
    for i in [5u32, 6, u32::MAX] {
        assert_eq!(RejectData::from_code(i), RejectData::Unknown(i));
        let bytes = serialize(&RejectData::Unknown(i));
        assert_eq!(deserialize::<RejectData>(&bytes), Ok(RejectData::Unknown(i)));
    }
}

#[test]
fn unknown_of_a_known_index_reads_back_as_the_known_value() {
    assert_eq!(deserialize::<Currency>(&serialize(&Currency::Unknown(0))), Ok(Currency::Btc));
    assert_eq!(deserialize::<Fiat>(&serialize(&Fiat::Unknown(2))), Ok(Fiat::Rub));
    assert_eq!(
        deserialize::<RejectData>(&serialize(&RejectData::Unknown(4))),
        Ok(RejectData::VersionNotSupported)
    );
}

#[test]
fn fiat_and_reject_tables() {
    for (i, f) in [Fiat::Usd, Fiat::Eur, Fiat::Rub].iter().enumerate() {
        assert_eq!(f.as_index(), i as u32);
        assert_eq!(Fiat::from_index(i as u32), *f);
    }
    let reasons = [
        RejectData::HeaderParsing,
        RejectData::PayloadParsing,
        RejectData::InternalError,
        RejectData::ZeroBytesReceived,
        RejectData::VersionNotSupported,
    ];
    for (i, d) in reasons.iter().enumerate() {
        assert_eq!(d.to_code(), i as u32);
        assert_eq!(RejectData::from_code(i as u32), *d);
    }
    assert_eq!(Fiat::Eur.label(), "Euro");
    assert_eq!(Fiat::Unknown(9).label(), "Unknown fiat currency");
    assert_eq!(RejectData::ZeroBytesReceived.label(), "got zero bytes");
    assert_eq!(RejectData::Unknown(9).label(), "unknown error");
}

#[test]
fn indices_wider_than_32_bits_keep_their_low_bits() {
    let wide = serialize(&VarInt((1u64 << 32) + 12));
    assert_eq!(deserialize::<Currency>(&wide), Ok(Currency::Dash));
    assert_eq!(deserialize::<Fiat>(&wide), Ok(Fiat::Unknown(12)));
    let reject = RejectMessage { id: 7, data: RejectData::Unknown(9), message: String::new() };
    let mut bytes = serialize(&VarInt((1u64 << 32) + 7));
    bytes.extend(serialize(&VarInt((1u64 << 32) + 9)));
    bytes.push(0);
    assert_eq!(deserialize::<RejectMessage>(&bytes), Ok(reject));
}

#[test]
fn pack_and_unpack_of_the_open_sets() {
    for i in [14u32, 15, 1000, u32::MAX] {
        assert_eq!(Currency::Unknown(i).pack(), VarInt(i as u64));
        assert_eq!(Currency::unpack(VarInt(i as u64)), Currency::Unknown(i));
        assert_eq!(Currency::unpack(Currency::Unknown(i).pack()), Currency::Unknown(i));
    }
    for i in [3u32, 4, 1000, u32::MAX] {
        assert_eq!(Fiat::Unknown(i).pack(), VarInt(i as u64));
        assert_eq!(Fiat::unpack(VarInt(i as u64)), Fiat::Unknown(i));
    }
    for i in [5u32, 6, u32::MAX] {
        assert_eq!(RejectData::Unknown(i).pack(), VarInt(i as u64));
        assert_eq!(RejectData::unpack(VarInt(i as u64)), RejectData::Unknown(i));
    }
    assert_eq!(Currency::Dash.pack(), VarInt(12));
    assert_eq!(Currency::unpack(VarInt(12)), Currency::Dash);
    assert_eq!(Currency::unpack(VarInt((1 << 32) + 12)), Currency::Dash);
    assert_eq!(Fiat::unpack(VarInt(1)), Fiat::Eur);
    assert_eq!(RejectData::unpack(VarInt(3)), RejectData::ZeroBytesReceived);
}

#[test]
fn message_identifier_wider_than_32_bits_is_refused() {
    for id in [22u64, 255, 1 << 16, (1 << 32) + 1, (1 << 32) + 11, u64::MAX] {
        let mut bytes = serialize(&VarInt(id));
        assert_eq!(Message::deserialize(&bytes), Err(Error::MalformedHeader));
        assert_eq!(Message::frame_extent(&bytes), Err(Error::MalformedHeader));
        bytes.extend_from_slice(&[8, 1, 2, 3, 4, 5, 6, 7, 8]);
        assert_eq!(Message::consensus_decode(&bytes), Err(Error::MalformedHeader));
        assert_eq!(Message::frame_extent(&bytes), Err(Error::MalformedHeader));
    }
}

#[test]
fn ipv4_address_vector() {
    let addr = Address::Ipv4([127, 0, 0, 1], 4142);
    assert_eq!(serialize(&addr), from_hex("007f000001102e"));
    assert_eq!(deserialize_partial::<Address>(&from_hex("007f000001102eff")), Ok((addr, 7)));
}

#[test]
fn address_errors() {
    assert_eq!(deserialize::<Address>(&[]), Err(Error::TruncatedInput));
    assert_eq!(deserialize::<Address>(&[3]), Err(Error::InvalidDiscriminant));
    assert_eq!(deserialize::<Address>(&[255, 1, 2, 3, 4, 5, 6]), Err(Error::InvalidDiscriminant));
    assert_eq!(deserialize::<Address>(&[0, 127, 0, 0, 1, 0x10]), Err(Error::TruncatedInput));
    assert_eq!(deserialize::<Address>(&[1; 18]), Err(Error::TruncatedInput));
    assert_eq!(deserialize::<Address>(&[2; 58]), Err(Error::TruncatedInput));
    assert_eq!(deserialize::<Address>(&[0; 8]), Err(Error::TrailingBytes));
}

#[test]
fn ipv6_groups_swap_their_bytes() {
    assert_eq!(
        ipv6_to_be([0x0120, 0xb80d, 0, 0xffff, 0x00ff, 0xff00, 1, 0x100]),
        [0x2001, 0x0db8, 0, 0xffff, 0xff00, 0x00ff, 0x100, 1]
    );
}

#[test]
fn unknown_message_id_is_refused() {
    assert_eq!(Message::deserialize(&[22]), Err(Error::MalformedHeader));
    assert_eq!(Message::deserialize(&[22, 0xFF]), Err(Error::MalformedHeader));
    assert_eq!(Message::deserialize(&from_hex("fdfd00")), Err(Error::MalformedHeader));
    assert_eq!(Message::deserialize(&[]), Err(Error::TruncatedInput));
    assert_eq!(Message::decode_body(22, &[]), Err(Error::MalformedHeader));
}

#[test]
fn message_names() {
    assert_eq!(Message::name_from_id(0), Some("version"));
    assert_eq!(Message::name_from_id(1), Some("version ack"));
    assert_eq!(Message::name_from_id(10), Some("reject"));
    assert_eq!(Message::name_from_id(15), Some("full filter inv"));
    assert_eq!(Message::name_from_id(16), Some("get full filter"));
    assert_eq!(Message::name_from_id(17), Some("full fulter"));
    assert_eq!(Message::name_from_id(21), Some("mempool chunk"));
    assert_eq!(Message::name_from_id(22), None);
    assert_eq!(Message::name_from_id(u32::MAX), None);
    for id in 0..22 {
        assert!(!Message::name_from_id(id).unwrap().is_empty());
    }
    for msg in every_kind_of_message() {
        assert!(Message::name_from_id(msg.id()).is_some());
    }
}

#[test]
fn oversized_length_is_refused_before_the_payload() {
    let over = serialize(&VarInt(MAX_MESSAGE_SIZE as u64 + 1));
    for id in [0u8, 2, 3, 4, 6, 7, 8, 9, 10, 11, 12, 13, 14, 17, 19, 20, 21] {
        let mut bytes = vec![id];
        bytes.extend_from_slice(&over);
        assert_eq!(Message::consensus_decode(&bytes), Err(Error::OversizedPayload));
        bytes.extend_from_slice(&[0; 16]);
        assert_eq!(Message::consensus_decode(&bytes), Err(Error::OversizedPayload));
    }
    let huge = from_hex("0bffffffffffffffffff");
    assert_eq!(Message::consensus_decode(&huge), Err(Error::OversizedPayload));
    let wrapped = from_hex("0bff0800000001000000cf78060000000000");
    assert_eq!(Message::consensus_decode(&wrapped), Err(Error::OversizedPayload));
}

#[test]
fn largest_length_is_accepted() {
    assert_eq!(MAX_MESSAGE_SIZE, 10_485_760);
    let at_limit = serialize(&VarInt(MAX_MESSAGE_SIZE as u64));
    let mut bytes = vec![17u8];
    bytes.extend_from_slice(&at_limit);
    assert_eq!(Message::consensus_decode(&bytes), Err(Error::TruncatedInput));

    let body = vec![0x5Au8; MAX_MESSAGE_SIZE - 5];
    let msg = Message::FullFilter(MemFilter(body));
    let bytes = msg.serialize().unwrap();
    assert_eq!(bytes.len(), 1 + 5 + MAX_MESSAGE_SIZE);
    assert_eq!(Message::deserialize(&bytes).unwrap(), msg);

    let msg = Message::FullFilter(MemFilter(vec![0x5Au8; MAX_MESSAGE_SIZE - 4]));
    let bytes = msg.serialize().unwrap();
    assert_eq!(Message::deserialize(&bytes), Err(Error::OversizedPayload));
}

#[test]
fn short_payload_is_truncated_input() {
    let bytes = from_hex("0b08cf780600000000");
    assert_eq!(Message::deserialize(&bytes), Err(Error::TruncatedInput));
    assert_eq!(Message::deserialize(&from_hex("0b")), Err(Error::TruncatedInput));
    assert_eq!(Message::deserialize(&from_hex("0bfd")), Err(Error::TruncatedInput));
}

#[test]
fn ping_takes_the_first_eight_bytes() {
    assert_eq!(Message::deserialize(&from_hex("0b0401020304")), Err(Error::TruncatedInput));
    assert_eq!(Message::deserialize(&from_hex("0c00")), Err(Error::TruncatedInput));
    assert_eq!(
        Message::deserialize(&from_hex("0b0a0102030405060708090a")),
        Ok(Message::Ping([1, 2, 3, 4, 5, 6, 7, 8]))
    );
}

#[test]
fn bytes_after_the_body_are_refused() {
    assert_eq!(
        Message::deserialize(&from_hex("020a00fec3ca0600fdd00700")),
        Err(Error::TrailingBytes)
    );
    assert_eq!(Message::deserialize(&from_hex("0704020000ff")), Err(Error::TrailingBytes));
    assert_eq!(Message::deserialize(&from_hex("0100")), Err(Error::TrailingBytes));
}

#[test]
fn list_with_too_few_items_is_truncated() {
    assert_eq!(Message::deserialize(&from_hex("0703030000")), Err(Error::TruncatedInput));
    assert_eq!(
        deserialize::<LengthVec<Currency>>(&from_hex("ffffffffffffffffff00")),
        Err(Error::TruncatedInput)
    );
    assert_eq!(deserialize::<LengthVec<Currency>>(&[0]), Ok(LengthVec(vec![])));
}

#[test]
fn byte_string_longer_than_the_input_is_truncated() {
    assert_eq!(deserialize::<MemFilter>(&from_hex("0401020304")), Ok(MemFilter(vec![1, 2, 3, 4])));
    assert_eq!(deserialize::<MemFilter>(&from_hex("05010203")), Err(Error::TruncatedInput));
    assert_eq!(
        deserialize::<MemFilter>(&from_hex("ffffffffffffffffff01")),
        Err(Error::TruncatedInput)
    );
}

#[test]
fn reject_text_must_be_utf8() {
    let good = from_hex("0a06150003e282ac");
    assert_eq!(
        Message::deserialize(&good),
        Ok(Message::Reject(RejectMessage {
            id: 21,
            data: RejectData::HeaderParsing,
            message: "\u{20ac}".to_string(),
        }))
    );
    for bad in ["0a06150003e28228", "0a04150001ff", "0a05150002c080", "0a06150003eda080"] {
        assert_eq!(Message::deserialize(&from_hex(bad)), Err(Error::InvalidText));
    }
}

#[test]
fn fee_scheme_follows_the_currency() {
    let plain = FeeOther { fast: 3, moderate: 2, cheap: 1 };
    let six = FeeBtc {
        fast_conserv: 1,
        fast_econom: 2,
        moderate_conserv: 3,
        moderate_econom: 4,
        cheap_conserv: 5,
        cheap_econom: 6,
    };
    assert!(FeeResp::Btc((Currency::Btc, six.clone())).is_consistent());
    assert!(FeeResp::Btc((Currency::TBtc, six.clone())).is_consistent());
    assert!(!FeeResp::Btc((Currency::Dash, six.clone())).is_consistent());
    assert!(!FeeResp::Btc((Currency::Unknown(0), six.clone())).is_consistent());
    assert!(FeeResp::Other((Currency::Btc, plain.clone())).is_consistent());
    assert!(!Message::Fee(vec![
        FeeResp::Other((Currency::Dash, plain.clone())),
        FeeResp::Btc((Currency::Ltc, six.clone())),
    ])
    .is_encodable());

    assert_eq!(
        deserialize::<FeeResp>(&from_hex("01010203040506")),
        Ok(FeeResp::Btc((Currency::TBtc, six.clone())))
    );
    assert_eq!(
        deserialize::<FeeResp>(&from_hex("02030201")),
        Ok(FeeResp::Other((Currency::Ergo, plain.clone())))
    );
    let misfit = serialize(&FeeResp::Other((Currency::Btc, plain)));
    assert_eq!(misfit, from_hex("00030201"));
    assert_eq!(deserialize::<FeeResp>(&misfit), Err(Error::TruncatedInput));
}

#[test]
fn filter_reader_takes_32_bytes_of_block_id() {
    let short = Filter { block_id: vec![1, 2, 3], filter: vec![9] };
    assert_eq!(serialize(&short), vec![1, 2, 3, 1, 9]);
    assert_eq!(deserialize::<Filter>(&serialize(&short)), Err(Error::TruncatedInput));
    let whole = sample_filter(4, &[0, 1, 0]);
    let bytes = serialize(&whole);
    assert_eq!(bytes.len(), 32 + 1 + 3);
    assert_eq!(deserialize::<Filter>(&bytes), Ok(whole));
}

#[test]
fn rate_is_eight_bytes_of_hundredths() {
    let rate = FiatRate { fiat: Fiat::Usd, rate: Rate::new(6_500_323) };
    assert_eq!(rate.rate.bits, 6_500_323);
    assert_eq!(serialize(&rate), from_hex("00e32f630000000000"));
    assert_eq!(deserialize::<FiatRate>(&from_hex("00e32f630000000000")), Ok(rate));
    assert_eq!(deserialize::<FiatRate>(&from_hex("00e32f6300000000")), Err(Error::TruncatedInput));
}

#[test]
fn gzip_changes_the_bytes_and_gives_them_back() {
    for data in [vec![], vec![0u8; 1000], b"hello hello hello".to_vec(), (0..=255u8).collect()] {
        let blob = compress_bytes(&data).unwrap();
        assert_ne!(blob, data);
        assert_eq!(&blob[..3], &[0x1f, 0x8b, 0x08]);
        assert_eq!(decompress_bytes(&blob).unwrap(), data);
        assert_eq!(compress_bytes(&data).unwrap(), blob);
    }
}

#[test]
fn gunzip_refuses_what_is_no_gzip_stream() {
    assert_eq!(decompress_bytes(&[]), Err(Error::CompressionFailure));
    assert_eq!(decompress_bytes(b"plain text"), Err(Error::CompressionFailure));
    let blob = compress_bytes(b"some bytes to compress").unwrap();
    assert_eq!(decompress_bytes(&blob[..blob.len() - 1]), Err(Error::CompressionFailure));
    let mut damaged = blob.clone();
    let last = damaged.len() - 5;
    damaged[last] ^= 0xFF;
    assert_eq!(decompress_bytes(&damaged), Err(Error::CompressionFailure));
    let mut followed = blob.clone();
    followed.push(0);
    assert_eq!(decompress_bytes(&followed), Err(Error::CompressionFailure));
}

#[test]
fn bulk_helpers_compress_the_items_in_a_row() {
    let filters = vec![sample_filter(1, b"ab"), sample_filter(2, b"")];
    let raw = pack_items(&filters);
    let mut expected = serialize(&filters[0]);
    expected.extend(serialize(&filters[1]));
    assert_eq!(raw, expected);
    let blob = FiltersResp::compress(&filters).unwrap();
    assert_eq!(blob, compress_bytes(&raw).unwrap());
    assert_eq!(FiltersResp::decompress(&blob).unwrap(), raw);
    assert_eq!(unpack_items::<Filter>(&raw, 2), Ok(filters.clone()));
    assert_eq!(unpack_items::<Filter>(&raw, 1), Ok(vec![filters[0].clone()]));
    assert_eq!(unpack_items::<Filter>(&raw, 3), Err(Error::TruncatedInput));

    let txs = vec![vec![1u8, 2, 3], vec![]];
    let blob = MempoolChunkResp::compress(&txs).unwrap();
    assert_eq!(MempoolChunkResp::decompress(&blob).unwrap(), vec![3, 1, 2, 3, 0]);

    let filter = MemFilter(vec![7; 100]);
    let blob = filter.compress().unwrap();
    assert_ne!(blob, filter.0);
    assert_eq!(MemFilter::decompress(&blob), Ok(filter));
    assert_eq!(MemFilter::decompress(&[1, 2, 3]), Err(Error::CompressionFailure));
}

#[test]
fn filters_response_reads_back_empty_and_with_zero_bytes() {
    for filters in [
        vec![],
        vec![sample_filter(0, &[])],
        vec![sample_filter(0, &[0; 64]), sample_filter(0, &[0]), sample_filter(255, &[0, 255, 0])],
    ] {
        let resp = FiltersResp { currency: Currency::Btc, filters };
        let payload = resp.consensus_encode().unwrap();
        assert_eq!(payload[0], 0);
        assert_eq!(payload[1] as usize, resp.filters.len());
        assert_eq!(&payload[2..5], &[0x1f, 0x8b, 0x08]);
        assert_eq!(FiltersResp::consensus_decode(&payload).unwrap(), resp);
        round_trip(&Message::Filters(resp));
    }
}

#[test]
fn mempool_chunk_reads_back_empty() {
    round_trip(&Message::MempoolChunk(MempoolChunkResp { prefix: TxPrefix([0, 1]), txs: vec![] }));
}

#[test]
fn damaged_blob_is_a_compression_failure() {
    assert_eq!(Message::deserialize(&from_hex("03020000")), Err(Error::CompressionFailure));
    assert_eq!(Message::deserialize(&from_hex("030400017879")), Err(Error::CompressionFailure));
    assert_eq!(Message::deserialize(&from_hex("1503000100")), Err(Error::CompressionFailure));
    let mut bytes = Message::Filters(FiltersResp {
        currency: Currency::Btc,
        filters: vec![sample_filter(1, b"abcd")],
    })
    .serialize()
    .unwrap();
    let last = bytes.len() - 1;
    bytes[last] ^= 1;
    assert_eq!(Message::deserialize(&bytes), Err(Error::CompressionFailure));
}

#[test]
fn bulk_count_beyond_the_items_is_truncated() {
    let resp = FiltersResp { currency: Currency::Btc, filters: vec![sample_filter(1, b"x")] };
    let mut payload = resp.consensus_encode().unwrap();
    payload[1] = 2;
    assert_eq!(FiltersResp::consensus_decode(&payload), Err(Error::TruncatedInput));
    payload[1] = 0;
    assert_eq!(
        FiltersResp::consensus_decode(&payload),
        Ok(FiltersResp { currency: Currency::Btc, filters: vec![] })
    );
}

#[test]
fn error_texts() {
    assert_eq!(Error::MalformedHeader.describe(), "Unknown message type");
    assert_eq!(Error::OversizedPayload.describe(), "Message size is too large");
    assert_eq!(Error::InvalidDiscriminant.describe(), "Unknown address type");
    for e in [
        Error::MalformedHeader,
        Error::OversizedPayload,
        Error::TruncatedInput,
        Error::InvalidDiscriminant,
        Error::CompressionFailure,
        Error::NonMinimalVarInt,
        Error::InvalidText,
        Error::TrailingBytes,
    ] {
        assert!(!e.describe().is_empty());
    }
}

#[test]
fn frame_extent_tells_where_a_message_ends() {
    assert_eq!(Message::frame_extent(&[]), Ok(None));
    assert_eq!(Message::frame_extent(&[1]), Ok(Some(1)));
    assert_eq!(Message::frame_extent(&[1, 2, 3]), Ok(Some(1)));
    assert_eq!(Message::frame_extent(&[22]), Err(Error::MalformedHeader));
    assert_eq!(Message::frame_extent(&from_hex("fd")), Ok(None));
    assert_eq!(Message::frame_extent(&from_hex("fd0100")), Err(Error::NonMinimalVarInt));
    let ping = from_hex("0b08cf78060000000000");
    for cut in 0..ping.len() {
        assert_eq!(Message::frame_extent(&ping[..cut]), Ok(None));
    }
    assert_eq!(Message::frame_extent(&ping), Ok(Some(10)));
    let mut two = ping.clone();
    two.extend_from_slice(&ping);
    assert_eq!(Message::frame_extent(&two), Ok(Some(10)));
    assert_eq!(Message::frame_extent(&from_hex("0b0401020304")), Ok(Some(6)));
    assert_eq!(Message::deserialize(&from_hex("0b0401020304")), Err(Error::TruncatedInput));
    assert_eq!(Message::frame_extent(&from_hex("0bfe010000a0")), Err(Error::OversizedPayload));
    assert_eq!(Message::frame_extent(&from_hex("0bfe0000a000")), Ok(None));
}
