use mecha_agent::handshake::{
    handshake_manifest, reply_headers, select_endpoints, HandshakeChannelHandler, TransactionTable,
};
use mecha_agent::networking::{pending_transaction, TransactionStatus};

fn state(s: &TransactionStatus) -> (String, String) {
    match s {
        TransactionStatus::TxnState { machine_id, state } => (machine_id.clone(), state.clone()),
    }
}

#[test]
fn a_recorded_transaction_reads_back() {
    let mut t = TransactionTable::new();
    assert!(t.get("t1").is_none());
    t.insert("t1".to_string(), pending_transaction("m1".to_string()));
    t.insert("t2".to_string(), pending_transaction("m2".to_string()));
    assert_eq!(state(t.get("t1").unwrap()), ("m1".to_string(), "PENDING".to_string()));
    t.insert(
        "t1".to_string(),
        TransactionStatus::TxnState { machine_id: "m1".to_string(), state: "DONE".to_string() },
    );
    assert_eq!(state(t.get("t1").unwrap()), ("m1".to_string(), "DONE".to_string()));
    assert_eq!(state(t.get("t2").unwrap()), ("m2".to_string(), "PENDING".to_string()));
    assert!(t.get("t3").is_none());
}

#[test]
fn endpoints_are_ipv4_addresses_of_wired_and_wireless_interfaces() {
    let interfaces = vec![
        ("lo".to_string(), Some([127, 0, 0, 1])),
        ("eth0".to_string(), Some([192, 168, 1, 20])),
        ("eth0".to_string(), None),
        ("wlan0".to_string(), Some([10, 0, 0, 7])),
        ("docker0".to_string(), Some([172, 17, 0, 1])),
        ("enp3s0".to_string(), Some([10, 1, 2, 3])),
    ];
    assert_eq!(select_endpoints(&interfaces), vec![[192, 168, 1, 20], [10, 0, 0, 7], [10, 1, 2, 3]]);
    assert!(select_endpoints(&vec![]).is_empty());
}

#[test]
fn handshake_answers_carry_a_manifest_and_reply_headers() {
    let m = handshake_manifest("txn".to_string(), &vec![[10, 0, 0, 7]], 4242);
    assert_eq!(m.txn_id, "txn");
    let c = m.candidates.unwrap();
    assert_eq!(c.local.len(), 1);
    assert_eq!((c.local[0].ip, c.local[0].port), ([10, 0, 0, 7], 4242));
    assert!(c.stun.is_none());
    let h = reply_headers();
    assert_eq!(h.get("Message-Type"), Some("REPLY".to_string()));

    let mut handler = HandshakeChannelHandler::new();
    assert_eq!(handler.channel_id.len(), 32);
    assert!(handler.channel_id.chars().all(|ch| ch.is_ascii_alphanumeric()));
    let channel = handler.channel_id.clone();
    let (manifest, headers) = handler.answer_request("m9".to_string(), &vec![[192, 168, 0, 2], [10, 0, 0, 1]], None);
    assert_eq!(manifest.txn_id.len(), 32);
    let local = manifest.candidates.unwrap().local;
    assert_eq!(local.len(), 2);
    assert!(local.iter().all(|c| c.port == 8080));
    assert_eq!(headers.entries, vec![("Message-Type".to_string(), "REPLY".to_string())]);
    assert_eq!(state(handler.txns.get(&manifest.txn_id).unwrap()), ("m9".to_string(), "PENDING".to_string()));
    assert_eq!(handler.channel_id, channel);
    let second = handler.open_transaction("m10".to_string());
    assert_ne!(second, manifest.txn_id);
    assert!(handler.txns.get(&manifest.txn_id).is_some());
}
