use ergvein_protocol::message::{
    Address, Currency, Error, FeeOther, FeeResp, Message, RejectData, RejectMessage, TxPrefix,
    MAX_MESSAGE_SIZE,
};
use rand::Rng;

fn reads_back(msg: &Message) {
    assert!(msg.is_encodable());
    let bytes = msg.serialize().unwrap();
    assert!(bytes.len() <= 1 + 5 + MAX_MESSAGE_SIZE);
    assert_eq!(&Message::deserialize(&bytes).unwrap(), msg);
}

#[test]
fn random_bytes_never_panic_and_what_they_hold_reads_back() {
    let mut rng = rand::thread_rng();
    let mut decoded = 0;
    for round in 0..20_000 {
        let len = rng.gen_range(0..48);
        let mut bytes: Vec<u8> = (0..len).map(|_| rng.gen()).collect();
        if round % 2 == 0 && len > 1 {
            bytes[0] = rng.gen_range(0..23);
            bytes[1] = rng.gen_range(0..(len as u8));
        }
        match Message::consensus_decode(&bytes) {
            Ok((msg, used)) => {
                assert!(1 <= used && used <= bytes.len());
                assert_eq!(Message::consensus_decode(&bytes[..used]), Ok((msg.clone(), used)));
                reads_back(&msg);
                decoded += 1;
            }
            Err(e) => assert!(!e.describe().is_empty()),
        }
    }
    assert!(decoded > 100);
}

#[test]
fn every_strict_prefix_of_a_message_is_truncated() {
    let messages = vec![
        Message::VersionAck,
        Message::Ping([1, 2, 3, 4, 5, 6, 7, 8]),
        Message::Peers(vec![Address::Ipv4([1, 2, 3, 4], 5), Address::OnionV3([7; 56], 1)]),
        Message::GetMempool(vec![TxPrefix([1, 2]); 300]),
        Message::Fee(vec![FeeResp::Other((
            Currency::Dash,
            FeeOther { fast: 1, moderate: 70_000, cheap: u64::MAX },
        ))]),
        Message::Reject(RejectMessage {
            id: 3,
            data: RejectData::PayloadParsing,
            message: "no such block".to_string(),
        }),
    ];
    for msg in &messages {
        let bytes = msg.serialize().unwrap();
        for cut in 0..bytes.len() {
            assert_eq!(Message::consensus_decode(&bytes[..cut]), Err(Error::TruncatedInput));
        }
        assert_eq!(Message::consensus_decode(&bytes), Ok((msg.clone(), bytes.len())));
    }
}
