use ergvein_protocol::message::{
    Address, Currency, FeeBtc, FeeOther, FeeResp, Fiat, FiatRate, Filter, FilterEvent,
    FilterPrefixPair, FiltersReq, FiltersResp, MemFilter, MempoolChunkResp, Message, Rate,
    RateReq, RateResp, RejectData, RejectMessage, ScanBlock, TxPrefix, Version, VersionMessage,
};
use ergvein_protocol::text::{to_hex, Text};
use rand::Rng;

#[test]
fn hex_is_two_lower_case_digits_a_byte() {
    assert_eq!(to_hex(&[]), "");
    assert_eq!(to_hex(&[0]), "00");
    assert_eq!(to_hex(&[0x0f, 0xf0, 0xab, 0x09, 0xff]), "0ff0ab09ff");
    let all: Vec<u8> = (0..=255).collect();
    let expected: String = all.iter().map(|b| format!("{:02x}", b)).collect();
    assert_eq!(to_hex(&all), expected);
}

#[test]
fn names_of_currencies_and_reasons() {
    assert_eq!(Currency::Btc.to_text(), "Bitcoin");
    assert_eq!(Currency::TUsdtOmni.to_text(), "Testnet USDT on Omni");
    assert_eq!(Currency::Unknown(0).to_text(), "Unknown currency 0");
    assert_eq!(Currency::Unknown(4_294_967_295).to_text(), "Unknown currency 4294967295");
    assert_eq!(Fiat::Usd.to_text(), "US Dollar");
    assert_eq!(Fiat::Unknown(42).to_text(), "Unknown fiat currency 42");
    assert_eq!(RejectData::VersionNotSupported.to_text(), "version is not supported");
    assert_eq!(RejectData::Unknown(10).to_text(), "unknown error 10");
}

#[test]
fn version_text() {
    assert_eq!(Version { major: 1, minor: 2, patch: 4 }.to_text(), "1.2.4");
    assert_eq!(Version { major: 0, minor: 10, patch: 65535 }.to_text(), "0.10.65535");
}

#[test]
fn address_text() {
    assert_eq!(Address::Ipv4([127, 0, 0, 1], 4142).to_text(), "127.0.0.1:4142");
    assert_eq!(Address::Ipv4([255, 0, 10, 100], 0).to_text(), "255.0.10.100:0");
    let v6 = |groups, port| Address::Ipv6(groups, port).to_text();
    assert_eq!(
        v6([0x2001, 0x0db8, 0x85a3, 0, 0, 0x8a2e, 0x0370, 0x7334], 4142),
        "[2001:db8:85a3::8a2e:370:7334]:4142"
    );
    assert_eq!(v6([0, 0, 0, 0, 0, 0, 0, 1], 8333), "[::1]:8333");
    assert_eq!(v6([0, 0, 0, 0, 0, 0, 0, 0], 0), "[::]:0");
    assert_eq!(v6([0, 0, 0, 0, 0, 0xffff, 0xc0a8, 0x0001], 80), "[::ffff:192.168.0.1]:80");
    assert_eq!(v6([1, 0, 0, 2, 0, 0, 0, 3], 1), "[1:0:0:2::3]:1");
    assert_eq!(v6([1, 0, 0, 2, 3, 0, 0, 4], 1), "[1::2:3:0:0:4]:1");
    assert_eq!(v6([1, 0, 2, 3, 4, 5, 6, 7], 1), "[1:0:2:3:4:5:6:7]:1");
    assert_eq!(v6([0xfe80, 0, 0, 0, 0, 0, 0, 0], 65535), "[fe80::]:65535");
    assert_eq!(v6([0, 0, 0xabcd, 0, 0, 0, 0x10, 0], 9), "[0:0:abcd::10:0]:9");
    assert_eq!(
        v6([0x1000, 0x200, 0x30, 0x4, 0xffff, 0xa, 0xb0, 0xc00], 9),
        "[1000:200:30:4:ffff:a:b0:c00]:9"
    );
    assert_eq!(
        Address::OnionV3(*b"jamie22ezawwi5r3o7lrgsno43jj7vq5en74czuw6wfmjzkhjjryxnid", 9150)
            .to_text(),
        "jamie22ezawwi5r3o7lrgsno43jj7vq5en74czuw6wfmjzkhjjryxnid:9150"
    );
    let mut raw = [65u8; 56];
    raw[55] = 0xff;
    let listed = format!("{:?}:{}", raw, 7);
    assert_eq!(Address::OnionV3(raw, 7).to_text(), listed);
}

#[test]
fn handshake_text() {
    let block = ScanBlock {
        currency: Currency::Ergo,
        version: Version { major: 4, minor: 1, patch: 0 },
        scan_height: 374299,
        height: 200000,
    };
    assert_eq!(block.to_text(), "Ergo (v4.1.0) 374299/200000");
    let msg = VersionMessage {
        version: Version { major: 1, minor: 2, patch: 4 },
        time: 1615562102,
        nonce: [0, 1, 2, 3, 4, 5, 6, 7],
        scan_blocks: vec![block.clone(), block],
    };
    assert_eq!(
        msg.to_text(),
        "Version 1.2.4 at 1615562102 with nonce 0001020304050607 and currencies:\
         Ergo (v4.1.0) 374299/200000, Ergo (v4.1.0) 374299/200000"
    );
    let none = VersionMessage { scan_blocks: vec![], ..msg };
    assert_eq!(
        Message::Version(none).to_text(),
        "Version 1.2.4 at 1615562102 with nonce 0001020304050607 and currencies:"
    );
}

#[test]
fn filter_texts() {
    let req = FiltersReq { currency: Currency::Btc, start: 445123, amount: 2000 };
    assert_eq!(req.to_text(), "req 2000 Bitcoin filters from 445123");
    let filter = Filter { block_id: vec![0xab; 2], filter: vec![1, 2] };
    assert_eq!(filter.to_text(), "Block abab, filter 0102");
    let resp = FiltersResp { currency: Currency::Ltc, filters: vec![filter.clone(), filter] };
    assert_eq!(
        resp.to_text(),
        "Filters for Litecoin:Block abab, filter 0102, Block abab, filter 0102"
    );
    let event = FilterEvent {
        currency: Currency::Dash,
        height: 8083,
        block_id: vec![0x12, 0x34],
        filter: vec![],
    };
    assert_eq!(event.to_text(), "New Dash filter at height 8083 and id 1234, body: ");
    assert_eq!(MemFilter(vec![0, 255]).to_text(), "Mempool filter 00ff");
    assert_eq!(TxPrefix([8, 192]).to_text(), "Prefix: 08c0");
    let pair = FilterPrefixPair { prefix: TxPrefix([8, 192]), filter: MemFilter(vec![7]) };
    assert_eq!(pair.to_text(), format!("Prefix: {:?}; Mempool filter 07", pair.prefix));
    let chunk = MempoolChunkResp { prefix: TxPrefix([9, 128]), txs: vec![vec![1], vec![], vec![2, 3]] };
    assert_eq!(chunk.to_text(), "Mempool chunk: Prefix: 0980:3:01, , 0203");
}

#[test]
fn fee_texts() {
    let btc = FeeBtc {
        fast_conserv: 4,
        fast_econom: 8,
        moderate_conserv: 15,
        moderate_econom: 16,
        cheap_conserv: 23,
        cheap_econom: 42,
    };
    assert_eq!(
        btc.to_text(),
        "Fast(conservative 4 sat/byte, econom 8 sat/byte)\n\
         Moderate(conservative 15 sat/byte, econom 16 sat/byte)\n\
         Cheap(conservative 23 sat/byte, econom 42 sat/byte)\n"
    );
    let other = FeeOther { fast: 4, moderate: 8, cheap: 15 };
    assert_eq!(other.to_text(), "Fast 4 unit/byte\nModerate 8 unit/byte\nCheap 15 unit/byte\n");
    assert_eq!(
        FeeResp::Other((Currency::Dash, other.clone())).to_text(),
        "Fee for Dash\nFast 4 unit/byte\nModerate 8 unit/byte\nCheap 15 unit/byte\n"
    );
    assert_eq!(
        FeeResp::Btc((Currency::TBtc, btc.clone())).to_text(),
        format!("Fee for Testnet Bitcoin\n{}", btc.to_text())
    );
}

#[test]
fn reject_text() {
    let reject = |id| RejectMessage {
        id,
        data: RejectData::InternalError,
        message: "Something went wrong".to_string(),
    };
    assert_eq!(
        reject(2).to_text(),
        "reject internal error for req filters, reason: Something went wrong"
    );
    assert_eq!(
        reject(16).to_text(),
        "reject internal error for get full filter, reason: Something went wrong"
    );
    assert_eq!(
        reject(22).to_text(),
        "reject internal error for unknown, reason: Something went wrong"
    );
    assert_eq!(
        reject(1000).to_text(),
        "reject internal error for unknown, reason: Something went wrong"
    );
}

#[test]
fn rate_reads_as_a_decimal_fraction() {
    for (bits, text) in [
        (0u64, "0"),
        (1, "0.01"),
        (5, "0.05"),
        (10, "0.1"),
        (12, "0.12"),
        (99, "0.99"),
        (100, "1"),
        (150, "1.5"),
        (105, "1.05"),
        (6_500_323, "65003.23"),
        (35_000_042, "350000.42"),
        (u64::MAX, "184467440737095516.15"),
    ] {
        assert_eq!(Rate::new(bits).to_text(), text);
    }
    let mut rng = rand::thread_rng();
    for _ in 0..20_000 {
        let bits: u64 = rng.gen_range(0..1_000_000_000_000_000);
        let bits = if rng.gen() { bits } else { bits % 1_000_000 };
        assert_eq!(Rate::new(bits).to_text(), format!("{}", bits as f64 / 100.0));
    }
    assert_eq!(
        FiatRate { fiat: Fiat::Rub, rate: Rate::new(35_000_042) }.to_text(),
        "350000.42 Ruble"
    );
}

#[test]
fn rates_text() {
    let req = RateReq { currency: Currency::Btc, fiats: vec![Fiat::Usd, Fiat::Rub] };
    assert_eq!(req.to_text(), "Bitcoin for US Dollar, Ruble");
    let resp = RateResp {
        currency: Currency::Dash,
        rates: vec![
            FiatRate { fiat: Fiat::Eur, rate: Rate::new(12) },
            FiatRate { fiat: Fiat::Rub, rate: Rate::new(1) },
        ],
    };
    assert_eq!(resp.to_text(), "Dash rates: 0.12 Euro, 0.01 Ruble");
    assert_eq!(
        Message::Rates(vec![resp.clone(), resp]).to_text(),
        "rates: Dash rates: 0.12 Euro, 0.01 Ruble, Dash rates: 0.12 Euro, 0.01 Ruble"
    );
    assert_eq!(Message::GetRates(vec![req]).to_text(), "req rates: Bitcoin for US Dollar, Ruble");
}

#[test]
fn message_texts() {
    assert_eq!(Message::VersionAck.to_text(), "verack");
    assert_eq!(Message::GetPeers.to_text(), "reqpeers");
    assert_eq!(Message::FullFilterInv.to_text(), "fullfilterinv");
    assert_eq!(Message::GetFullFilter.to_text(), "getfullfilter");
    assert_eq!(Message::GetMemFilters.to_text(), "getmemfilters");
    assert_eq!(Message::Ping([0xCF, 0x78, 0x06, 0, 0, 0, 0, 0]).to_text(), "ping cf78060000000000");
    assert_eq!(Message::Pong([0xCF, 0x78, 0x06, 0, 0, 0, 0, 0]).to_text(), "pong cf78060000000000");
    assert_eq!(Message::Peers(vec![]).to_text(), "peers: ");
    assert_eq!(
        Message::Peers(vec![Address::Ipv4([1, 2, 3, 4], 5), Address::Ipv4([6, 7, 8, 9], 10)])
            .to_text(),
        "peers: 1.2.3.4:5, 6.7.8.9:10"
    );
    assert_eq!(
        Message::PeerIntroduce(vec![Address::Ipv4([1, 2, 3, 4], 5)]).to_text(),
        "peer announce: 1.2.3.4:5"
    );
    assert_eq!(
        Message::GetFee(vec![Currency::Btc, Currency::Dash]).to_text(),
        "reqfee: Bitcoin, Dash"
    );
    assert_eq!(
        Message::Fee(vec![FeeResp::Other((Currency::Dash, FeeOther { fast: 1, moderate: 2, cheap: 3 }))])
            .to_text(),
        "fee: Fee for Dash\nFast 1 unit/byte\nModerate 2 unit/byte\nCheap 3 unit/byte\n"
    );
    assert_eq!(Message::FullFilter(MemFilter(vec![1])).to_text(), "fullfilter: Mempool filter 01");
    assert_eq!(
        Message::GetMempool(vec![TxPrefix([72, 12]), TxPrefix([0, 1])]).to_text(),
        "getmempool: Prefix: 480c, Prefix: 0001"
    );
    assert_eq!(
        Message::MempoolChunk(MempoolChunkResp { prefix: TxPrefix([9, 128]), txs: vec![] }).to_text(),
        "mempoolchunk: Mempool chunk: Prefix: 0980:0:"
    );
    assert_eq!(
        Message::GetFilters(FiltersReq { currency: Currency::Btc, start: 1, amount: 2 }).to_text(),
        "req 2 Bitcoin filters from 1"
    );
}
