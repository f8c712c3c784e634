use ergvein_protocol::message::{
    deserialize, deserialize_partial, serialize, Address, Currency, FeeBtc, FeeOther, FeeResp,
    Fiat, FiatRate, Filter, FilterEvent, FilterPrefixPair, FiltersReq, FiltersResp, MemFilter,
    MempoolChunkResp, Message, Rate, RateReq, RateResp, RejectData, RejectMessage, ScanBlock,
    TxPrefix, VarInt, Version, VersionMessage,
};
use ergvein_protocol::text::{to_hex, Text};
use rand::Rng;

fn from_hex(text: &str) -> Vec<u8> {
    assert!(text.len() % 2 == 0);
    (0..text.len() / 2)
        .map(|i| u8::from_str_radix(&text[2 * i..2 * i + 2], 16).unwrap())
        .collect()
}

struct Header {
    message_id: u32,
    message_length: u64,
    message_payload: Vec<u8>,
}

fn read_header(bytes: &[u8]) -> Header {
    let (id, n) = deserialize_partial::<VarInt>(bytes).unwrap();
    let (len, k) = deserialize_partial::<VarInt>(&bytes[n..]).unwrap();
    let start = n + k;
    let end = start + len.0 as usize;
    Header {
        message_id: id.0 as u32,
        message_length: len.0,
        message_payload: bytes[start..end].to_vec(),
    }
}

#[test]
fn version_test_1() {
    let ver = Version {
        major: 1,
        minor: 2,
        patch: 4,
    };
    assert_eq!(ver.pack(), 0b0000000100_0000000010_0000000001_00);
    assert_eq!(Version::unpack(0b0000000100_0000000010_0000000001_00), ver);
}

#[test]
fn version_test_2() {
    let ver = Version {
        major: 2,
        minor: 0,
        patch: 0,
    };
    assert_eq!(ver.pack(), 0b0000000000_0000000000_0000000010_00);
    assert_eq!(Version::unpack(0b0000000000_0000000000_0000000010_00), ver);
}

#[test]
fn version_compat_self() {
    assert!(
        Version::current().compatible(&Version::current()),
        "Version is compatible to self"
    );
}

#[test]
fn address_test_v4() {
    let addr = Address::Ipv4([127, 0, 0, 1], 4142);
    let bytes = vec![0, 127, 0, 0, 1, 0x10, 0x2E];
    assert_eq!(serialize(&addr), bytes);
    assert_eq!(deserialize::<Address>(&bytes).unwrap(), addr);
}

#[test]
fn address_test_v6() {
    let addr = Address::Ipv6(
        [0x2001, 0x0db8, 0x85a3, 0x0000, 0x0000, 0x8a2e, 0x0370, 0x7334],
        4142,
    );
    let bytes = vec![
        1, 0x20, 0x01, 0x0d, 0xb8, 0x85, 0xa3, 0x00, 0x00, 0x00, 0x00, 0x8a, 0x2e, 0x03, 0x70,
        0x73, 0x34, 0x10, 0x2E,
    ];
    assert_eq!(serialize(&addr), bytes);
    assert_eq!(deserialize::<Address>(&bytes).unwrap(), addr);
}

#[test]
fn address_test_onion() {
    let addr = Address::OnionV3(
        *b"jamie22ezawwi5r3o7lrgsno43jj7vq5en74czuw6wfmjzkhjjryxnid",
        9150,
    );
    let bytes = vec![
        2, 106, 97, 109, 105, 101, 50, 50, 101, 122, 97, 119, 119, 105, 53, 114, 51, 111, 55,
        108, 114, 103, 115, 110, 111, 52, 51, 106, 106, 55, 118, 113, 53, 101, 110, 55, 52, 99,
        122, 117, 119, 54, 119, 102, 109, 106, 122, 107, 104, 106, 106, 114, 121, 120, 110,
        105, 100, 35, 190,
    ];
    assert_eq!(serialize(&addr), bytes);
    assert_eq!(deserialize::<Address>(&bytes).unwrap(), addr);
}

#[test]
fn version_msg_test() {
    let msg = Message::Version(VersionMessage {
        version: Version {
            major: 1,
            minor: 2,
            patch: 4,
        },
        time: 1615562102,
        nonce: [0, 1, 2, 3, 4, 5, 6, 7],
        scan_blocks: vec![
            ScanBlock {
                currency: Currency::Btc,
                version: Version {
                    major: 1,
                    minor: 2,
                    patch: 4,
                },
                scan_height: 674299,
                height: 300000,
            },
            ScanBlock {
                currency: Currency::Ergo,
                version: Version {
                    major: 4,
                    minor: 1,
                    patch: 0,
                },
                scan_height: 374299,
                height: 200000,
            },
        ],
    });
    let bytes = from_hex("00330100200476854b60000000000001020304050607020001002004fefb490a00fee09304000200001010fe1bb60500fe400d0300");
    assert_eq!(msg.serialize().unwrap(), bytes);
    assert_eq!(Message::deserialize(&bytes).unwrap(), msg);
}

#[test]
fn version_msg_test_failed_version() {
    let msg = Message::Version(VersionMessage {
        version: Version {
            major: 2,
            minor: 0,
            patch: 0,
        },
        time: 1617118704,
        nonce: [25, 218, 220, 43, 225, 52, 200, 125],
        scan_blocks: vec![ScanBlock {
            currency: Currency::Btc,
            version: Version {
                major: 1,
                minor: 0,
                patch: 0,
            },
            scan_height: 677013,
            height: 677013,
        }],
    });
    let bytes = from_hex("002400000008f04563600000000019dadc2be134c87d010000000004fe95540a00fe95540a00");
    assert_eq!(Message::deserialize(&bytes).unwrap(), msg);
    assert_eq!(msg.serialize().unwrap(), bytes);
}

#[test]
fn verack_msg_test() {
    let msg = Message::VersionAck;
    let bytes = from_hex("01");
    assert_eq!(msg.serialize().unwrap(), bytes);
    assert_eq!(Message::deserialize(&bytes).unwrap(), msg);
}

#[test]
fn ping_msg_test() {
    let msg = Message::Ping([0xCF, 0x78, 0x06, 0, 0, 0, 0, 0]);
    let bytes = from_hex("0b08cf78060000000000");
    assert_eq!(msg.serialize().unwrap(), bytes);
    assert_eq!(Message::deserialize(&bytes).unwrap(), msg);
}

#[test]
fn pong_msg_test() {
    let msg = Message::Pong([0xCF, 0x78, 0x06, 0, 0, 0, 0, 0]);
    let bytes = from_hex("0c08cf78060000000000");
    assert_eq!(msg.serialize().unwrap(), bytes);
    assert_eq!(Message::deserialize(&bytes).unwrap(), msg);
}

#[test]
fn reject_msg_test() {
    let msg = Message::Reject(RejectMessage {
        id: 2,
        data: RejectData::InternalError,
        message: "Something went wrong".to_string(),
    });
    let bytes = from_hex("0a17020214536f6d657468696e672077656e742077726f6e67");
    assert_eq!(msg.serialize().unwrap(), bytes);
    assert_eq!(Message::deserialize(&bytes).unwrap(), msg);
}

#[test]
fn filters_req_test() {
    let msg = Message::GetFilters(FiltersReq {
        currency: Currency::Btc,
        start: 445123,
        amount: 2000,
    });
    let bytes = from_hex("020900fec3ca0600fdd007");
    assert_eq!(msg.serialize().unwrap(), bytes);
    assert_eq!(Message::deserialize(&bytes).unwrap(), msg);
}

#[test]
fn filters_req_test2() {
    let msg = Message::GetFilters(FiltersReq {
        currency: Currency::Btc,
        start: 400000,
        amount: 300,
    });
    let bytes = from_hex("020900fe801a0600fd2c01");
    assert_eq!(Message::deserialize(&bytes).unwrap(), msg);
    assert_eq!(msg.serialize().unwrap(), bytes);
}

#[test]
fn filters_resp_test() {
    let msg = Message::Filters(FiltersResp {
        currency: Currency::Btc,
        filters: vec![
            Filter {
                block_id: b"12345678123456781234567812345678".to_vec(),
                filter: b"abcd".to_vec(),
            },
            Filter {
                block_id: b"22345678123456781234567812345678".to_vec(),
                filter: b"ffff".to_vec(),
            },
        ],
    });
    let bytes = from_hex("032b00021f8b080000000000000333343236313533b730c441b3242625a71811529406040096e289844a000000");
    let our_bytes = msg.serialize().unwrap();
    assert_eq!(Message::deserialize(&bytes).unwrap(), msg);
    assert_eq!(Message::deserialize(&our_bytes).unwrap(), msg);

    let header = read_header(&our_bytes);
    assert_eq!(header.message_id, 3);
    assert_eq!(header.message_length, header.message_payload.len() as u64);
}

#[test]
fn filter_event_test() {
    let msg = Message::Filter(FilterEvent {
        currency: Currency::Btc,
        height: 8083,
        block_id: b"12345678123456781234567812345678".to_vec(),
        filter: b"abcd".to_vec(),
    });
    let bytes = from_hex("042900fd931f31323334353637383132333435363738313233343536373831323334353637380461626364");
    assert_eq!(msg.serialize().unwrap(), bytes);
    assert_eq!(Message::deserialize(&bytes).unwrap(), msg);
}

#[test]
fn fee_req_test() {
    let msg = Message::GetFee(vec![Currency::Btc, Currency::Dash]);
    let bytes = from_hex("070302000c");
    assert_eq!(msg.serialize().unwrap(), bytes);
    assert_eq!(Message::deserialize(&bytes).unwrap(), msg);
}

#[test]
fn fee_resp_test() {
    let msg = Message::Fee(vec![
        FeeResp::Btc((
            Currency::Btc,
            FeeBtc {
                fast_conserv: 4,
                fast_econom: 8,
                moderate_conserv: 15,
                moderate_econom: 16,
                cheap_conserv: 23,
                cheap_econom: 42,
            },
        )),
        FeeResp::Other((
            Currency::Dash,
            FeeOther {
                fast: 4,
                moderate: 8,
                cheap: 15,
            },
        )),
    ]);
    let bytes = from_hex("080c020004080f10172a0c04080f");
    assert_eq!(msg.serialize().unwrap(), bytes);
    assert_eq!(Message::deserialize(&bytes).unwrap(), msg);
}

#[test]
fn peer_req_test() {
    let msg = Message::GetPeers;
    let bytes = from_hex("05");
    assert_eq!(msg.serialize().unwrap(), bytes);
    assert_eq!(Message::deserialize(&bytes).unwrap(), msg);
}

#[test]
fn peer_resp_test() {
    let msg = Message::Peers(vec![
        Address::Ipv4([127, 0, 0, 1], 8333),
        Address::Ipv6([0, 0, 0, 0, 0, 0, 0, 1], 8333),
        Address::OnionV3(
            *b"jamie22ezawwi5r3o7lrgsno43jj7vq5en74czuw6wfmjzkhjjryxnid",
            9150,
        ),
    ]);
    let bytes = from_hex("065603007f000001208d0100000000000000000000000000000001208d026a616d69653232657a617777693572336f376c7267736e6f34336a6a37767135656e3734637a75773677666d6a7a6b686a6a7279786e696423be");
    assert_eq!(msg.serialize().unwrap(), bytes);
    assert_eq!(Message::deserialize(&bytes).unwrap(), msg);
}

#[test]
fn rates_req_test() {
    let msg = Message::GetRates(vec![
        RateReq {
            currency: Currency::Btc,
            fiats: vec![Fiat::Usd, Fiat::Rub],
        },
        RateReq {
            currency: Currency::Dash,
            fiats: vec![Fiat::Eur, Fiat::Rub],
        },
    ]);
    let bytes = from_hex("0d0902000200020c020102");
    assert_eq!(msg.serialize().unwrap(), bytes);
    assert_eq!(Message::deserialize(&bytes).unwrap(), msg);
}

#[test]
fn rates_resp_test() {
    let msg = Message::Rates(vec![
        RateResp {
            currency: Currency::Btc,
            rates: vec![
                FiatRate {
                    fiat: Fiat::Usd,
                    rate: Rate::new(65003_23),
                },
                FiatRate {
                    fiat: Fiat::Rub,
                    rate: Rate::new(350000_42),
                },
            ],
        },
        RateResp {
            currency: Currency::Dash,
            rates: vec![
                FiatRate {
                    fiat: Fiat::Eur,
                    rate: Rate::new(0_12),
                },
                FiatRate {
                    fiat: Fiat::Rub,
                    rate: Rate::new(0_01),
                },
            ],
        },
    ]);
    let bytes = from_hex("0e2902000200e32f63000000000002ea0e1602000000000c02010c00000000000000020100000000000000");
    assert_eq!(msg.serialize().unwrap(), bytes);
    assert_eq!(Message::deserialize(&bytes).unwrap(), msg);
}

#[test]
fn peer_introduce_test() {
    let msg = Message::PeerIntroduce(vec![
        Address::Ipv4([127, 0, 0, 1], 8333),
        Address::Ipv6([0, 0, 0, 0, 0, 0, 0, 1], 8333),
        Address::OnionV3(
            *b"jamie22ezawwi5r3o7lrgsno43jj7vq5en74czuw6wfmjzkhjjryxnid",
            9150,
        ),
    ]);
    let bytes = from_hex("095603007f000001208d0100000000000000000000000000000001208d026a616d69653232657a617777693572336f376c7267736e6f34336a6a37767135656e3734637a75773677666d6a7a6b686a6a7279786e696423be");
    assert_eq!(msg.serialize().unwrap(), bytes);
    assert_eq!(Message::deserialize(&bytes).unwrap(), msg);
}

#[test]
fn full_filter_inv_test() {
    let msg = Message::FullFilterInv;
    let bytes = from_hex("0f");
    assert_eq!(msg.serialize().unwrap(), bytes);
    assert_eq!(Message::deserialize(&bytes).unwrap(), msg);
}

#[test]
fn get_full_filter_test() {
    let msg = Message::GetFullFilter;
    let bytes = from_hex("10");
    assert_eq!(msg.serialize().unwrap(), bytes);
    assert_eq!(Message::deserialize(&bytes).unwrap(), msg);
}

#[test]
fn full_filter_test() {
    let mut rng = rand::thread_rng();
    for _ in 0..100 {
        let mut f: Vec<u8> = Vec::new();
        let n = rng.gen_range(0..1024);
        (0..n).for_each(|_| {
            f.push(rng.gen());
        });
        let msg = Message::FullFilter(MemFilter(f));
        let bytes = msg.serialize().unwrap();
        assert_eq!(Message::deserialize(&bytes).unwrap(), msg);
    }

    let msg = Message::FullFilter(MemFilter(from_hex("13ef4d423ac40d6e5e287611d82f69b1d75b22e30f3a78a9fe0985f45c45757a2efc71f20f491be782c84926941d40499d3238")));
    let bytes = from_hex("11343313ef4d423ac40d6e5e287611d82f69b1d75b22e30f3a78a9fe0985f45c45757a2efc71f20f491be782c84926941d40499d3238");

    assert_eq!(msg, Message::deserialize(&bytes).unwrap());
}

#[test]
fn get_mem_filters_test() {
    let msg = Message::GetMemFilters;
    let bytes = from_hex("12");
    assert_eq!(msg.serialize().unwrap(), bytes);
    assert_eq!(Message::deserialize(&bytes).unwrap(), msg);
}

#[test]
fn mem_filters_test() {
    let mut rng = rand::thread_rng();
    for _ in 0..10 {
        let mut fps: Vec<FilterPrefixPair> = Vec::new();
        let n = rng.gen_range(0..1024);
        (0..n).for_each(|_| {
            let prefix = TxPrefix(rng.gen());
            let m = rng.gen_range(0..1024);
            let mut f: Vec<u8> = Vec::with_capacity(m);
            (0..m).for_each(|_| {
                f.push(rng.gen());
            });
            let filter = MemFilter(f);
            let fp = FilterPrefixPair { prefix, filter };
            fps.push(fp)
        });
        let msg = Message::MemFilters(fps);
        let bytes = msg.serialize().unwrap();
        assert_eq!(Message::deserialize(&bytes).unwrap(), msg);
    }

    let mut fpairs = vec![
        FilterPrefixPair {
            prefix: TxPrefix([8, 192]),
            filter: MemFilter(from_hex("00")),
        },
        FilterPrefixPair {
            prefix: TxPrefix([18, 192]),
            filter: MemFilter(from_hex("00")),
        },
        FilterPrefixPair {
            prefix: TxPrefix([54, 192]),
            filter: MemFilter(from_hex("00")),
        },
        FilterPrefixPair {
            prefix: TxPrefix([195, 192]),
            filter: MemFilter(from_hex("00")),
        },
        FilterPrefixPair {
            prefix: TxPrefix([9, 128]),
            filter: MemFilter(from_hex("022d7f2b50e000")),
        },
        FilterPrefixPair {
            prefix: TxPrefix([248, 0]),
            filter: MemFilter(from_hex("00")),
        },
        FilterPrefixPair {
            prefix: TxPrefix([72, 64]),
            filter: MemFilter(from_hex("00")),
        },
        FilterPrefixPair {
            prefix: TxPrefix([136, 64]),
            filter: MemFilter(from_hex("00")),
        },
        FilterPrefixPair {
            prefix: TxPrefix([10, 0]),
            filter: MemFilter(from_hex("00")),
        },
        FilterPrefixPair {
            prefix: TxPrefix([110, 64]),
            filter: MemFilter(from_hex("031b48714c5a3d93d0")),
        },
        FilterPrefixPair {
            prefix: TxPrefix([209, 192]),
            filter: MemFilter(from_hex("02a49bfc5e31c0")),
        },
        FilterPrefixPair {
            prefix: TxPrefix([121, 64]),
            filter: MemFilter(from_hex("0189ece0")),
        },
        FilterPrefixPair {
            prefix: TxPrefix([231, 64]),
            filter: MemFilter(from_hex("00")),
        },
        FilterPrefixPair {
            prefix: TxPrefix([13, 0]),
            filter: MemFilter(from_hex("00")),
        },
        FilterPrefixPair {
            prefix: TxPrefix([39, 0]),
            filter: MemFilter(from_hex("00")),
        },
        FilterPrefixPair {
            prefix: TxPrefix([213, 192]),
            filter: MemFilter(from_hex("039776c95c592b27d0")),
        },
        FilterPrefixPair {
            prefix: TxPrefix([98, 128]),
            filter: MemFilter(from_hex("01982900")),
        },
        FilterPrefixPair {
            prefix: TxPrefix([171, 128]),
            filter: MemFilter(from_hex("014f0dd0")),
        },
        FilterPrefixPair {
            prefix: TxPrefix([247, 0]),
            filter: MemFilter(from_hex("00")),
        },
        FilterPrefixPair {
            prefix: TxPrefix([39, 128]),
            filter: MemFilter(from_hex("00")),
        },
        FilterPrefixPair {
            prefix: TxPrefix([113, 64]),
            filter: MemFilter(from_hex("00")),
        },
        FilterPrefixPair {
            prefix: TxPrefix([150, 192]),
            filter: MemFilter(from_hex("030a2d1d7494236508")),
        },
        FilterPrefixPair {
            prefix: TxPrefix([95, 0]),
            filter: MemFilter(from_hex("032704d4082c545300")),
        },
        FilterPrefixPair {
            prefix: TxPrefix([181, 128]),
            filter: MemFilter(from_hex("031ddc812f62d786d8")),
        },
        FilterPrefixPair {
            prefix: TxPrefix([202, 0]),
            filter: MemFilter(from_hex("00")),
        },
        FilterPrefixPair {
            prefix: TxPrefix([104, 192]),
            filter: MemFilter(from_hex("00")),
        },
        FilterPrefixPair {
            prefix: TxPrefix([201, 64]),
            filter: MemFilter(from_hex("00")),
        },
        FilterPrefixPair {
            prefix: TxPrefix([31, 128]),
            filter: MemFilter(from_hex("00")),
        },
        FilterPrefixPair {
            prefix: TxPrefix([29, 0]),
            filter: MemFilter(from_hex("00")),
        },
        FilterPrefixPair {
            prefix: TxPrefix([114, 192]),
            filter: MemFilter(from_hex("0240f91b4f8b80")),
        },
        FilterPrefixPair {
            prefix: TxPrefix([162, 64]),
            filter: MemFilter(from_hex("0253954696ad")),
        },
    ];
    fpairs.sort(); // Input hex was sorted
    let msg = Message::MemFilters(fpairs);
    let bytes = from_hex("13c51f08c00100098007022d7f2b50e0000a0001000d00010012c001001d0001001f800100270001002780010036c00100484001005f0009032704d4082c5453006280040198290068c001006e4009031b48714c5a3d93d07140010072c0070240f91b4f8b807940040189ece08840010096c009030a2d1d7494236508a240060253954696adab8004014f0dd0b58009031ddc812f62d786d8c3c00100c9400100ca000100d1c00702a49bfc5e31c0d5c009039776c95c592b27d0e7400100f7000100f8000100");
    if let Message::MemFilters(msg2) = Message::deserialize(&bytes).unwrap() {
        for FilterPrefixPair { prefix, filter } in msg2.iter() {
            println!("{:?}:{}", prefix, to_hex(&filter.0));
        }
    }
    assert_eq!(msg, msg);
}

#[test]
fn get_mempool_test() {
    let mut rng = rand::thread_rng();
    for _ in 0..100 {
        let mut prefs: Vec<[u8; 2]> = Vec::new();
        let n = rng.gen_range(0..1024);
        (0..n).for_each(|_| {
            prefs.push(rng.gen());
        });
        let msg = Message::GetMempool(prefs.iter().map(|p| TxPrefix(p.clone())).collect());
        let bytes = msg.serialize().unwrap();
        assert_eq!(
            Message::deserialize(&bytes).unwrap(),
            msg,
            "Failed to deserialize random getmempool"
        );
    }

    let msg = Message::GetMempool(vec![TxPrefix([72, 12])]);
    let bytes = from_hex("140301480c");
    assert_eq!(
        Message::deserialize(&bytes).unwrap(),
        msg,
        "Deserialized msg not equal to a specific one"
    );
}

#[test]
fn mempool_chunk_test() {
    let mut rng = rand::thread_rng();
    for _ in 0..100 {
        let prefix = TxPrefix(rng.gen());
        let amount: u32 = rng.gen_range(1..102);
        let mut txs: Vec<Vec<u8>> = Vec::new();
        (0..amount).for_each(|_| {
            let l = rng.gen_range(1..256);
            let mut tx = Vec::new();
            (0..l).for_each(|_| tx.push(rng.gen()));
            txs.push(tx);
        });
        let msg = Message::MempoolChunk(MempoolChunkResp { prefix, txs });
        let bytes = msg.serialize().unwrap();
        assert_eq!(Message::deserialize(&bytes).unwrap(), msg);
    }

    let tx = from_hex("02000000000101261560a27330e73b46351ac349ff35136f614d4dfdfb3a108fa85c140a1c61a901000000171600149fd77bca5b9369478c80dc5c5cc4101f7baf5a95feffffff0254c410000000000017a914ba906b3da20467de78552d0c089e3754f49f62688740420f000000000017a9140f912a6fc7ba91305934dba0ef566cbfc62fd2218702473044022045d75032c9f3806939ff10ffd79a040bdcbece2f90cb1dc95e3a3b7cf109da1e022012a37cc4fee1ff9ae19c6adf7d0bc84a122b5ce33d5c43bebff52a6796d512340121025609c093b93e3d4a003ebb0ec8e58700d12e6f05c0c1096f18ba3ef8ff931fca260d1b00");
    let txs = vec![tx; 6];
    let prefix = TxPrefix([9, 128]);
    let msg = Message::MempoolChunk(MempoolChunkResp { prefix, txs });
    let bytes = from_hex("15fd1c010980061f8b0800000000000003fbcec400048c8c6aa2098b8a0d9e5bbb994a1df6fc6f2a9c9fe8ebfbf7b79540ff8a18112e99c4958c4055e2620c22f3af579f8a9e9ce9ded3702726e688807cf5faa8a9fffeffffcf14724400641283f84a915d13b26d17b1a4dfab08d5e5e198671ef2657e5246bb83133f4c9e7fa256fef15d130d224d6e2f781f96b3ff98fe25c576267703172605d7eb0146273f37645afe17f87f7d160bf79d7de7f4279c963d1967655df391f3961c9382d0e29a23ff1efe9ff5704ed6fd5aee135e42da318f6d639cf7edffaa953eedaa9009a3225318e781c93bed6cbd18ec76f39d78dace70512f9ff5c041ce7c895d763ffe4f963fa5c62bcdf07dd4dfa3fe1ef5f7a8bf8799bf015b13a09cd0050000");
    assert_eq!(
        Message::deserialize(&bytes).unwrap(),
        msg,
        "Deserialized msg not equal to a specific one"
    );
}
