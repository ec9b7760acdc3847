use pool_sniper::bench::{Bench, Race};
use pool_sniper::config::{RpcConfig, RpcType};
use pool_sniper::error::Error;
use pool_sniper::keys::{Address, Blockhash, Signature};
use pool_sniper::meteora::SwapData;
use pool_sniper::tx_senders::bloxroute::{BloxrouteResponse, BloxrouteTxSender};
use pool_sniper::tx_senders::constants::{BLOXROUTE_TIP_ID, JITO_TIP_ID, WSOL_ACCOUNT_ID, NEXTBLOCK_BLOCK_TIP_ID};
use pool_sniper::tx_senders::jito::{JitoResponse, JitoTxSender};
use pool_sniper::tx_senders::nextblock::{NextblockResponse, NextblockTxSender};
use pool_sniper::tx_senders::solana_rpc::GenericRpc;
use pool_sniper::tx_senders::transaction::{build_wire, Keypair, TransactionConfig};
use pool_sniper::tx_senders::{
    create_tx_sender, signature_result, status_is_success, Header, HttpRequest, Reply, Route,
    RpcSendTransactionConfig, Submission, TxResult, TxSender, UiTransactionEncoding,
};
use solana_sdk::signature::SeedDerivable;
use std::sync::Arc;

fn key(n: u8) -> Address {
    Address::new([n; 32])
}

fn swap() -> SwapData {
    SwapData::new(
        key(1),
        Address::new(WSOL_ACCOUNT_ID),
        key(3),
        key(4),
        key(5),
        key(6),
        key(7),
        key(8),
        key(9),
        key(10),
        key(11),
        key(12),
        key(13),
        key(14),
    )
}

fn config() -> TransactionConfig {
    let sdk = solana_sdk::signer::keypair::Keypair::from_seed(&[11u8; 32]).unwrap();
    TransactionConfig {
        keypair: Arc::new(match Keypair::from_bytes(sdk.to_bytes()) {
            Ok(keypair) => keypair,
            Err(e) => panic!("the seed gives a key pair, got {:?}", e),
        }),
        compute_unit_limit: 100_000,
        compute_unit_price: 1,
        tip: 10_000,
        buy_amount: 5,
        min_amount_out: 1,
    }
}

fn blockhash() -> Blockhash {
    Blockhash { bytes: [3; 32] }
}

fn header(name: &str, value: &str) -> Header {
    Header { name: name.to_string(), value: value.to_string() }
}

fn http(status: u16, body: &str) -> Reply {
    Reply::Http { status, body: body.to_string() }
}

fn some_signature() -> (Signature, String) {
    let bytes = [0x5a; 64];
    (Signature { bytes }, solana_sdk::signature::Signature::from(bytes).to_string())
}

fn tip_receiver(wire: &[u8]) -> [u8; 32] {
    let tx: solana_sdk::transaction::VersionedTransaction = bincode::deserialize(wire).unwrap();
    let transfer = &tx.message.instructions()[2];
    tx.message.static_account_keys()[transfer.accounts[1] as usize].to_bytes()
}

#[test]
fn a_signature_converts_to_base58_and_an_identifier_to_itself() {
    let (signature, text) = some_signature();
    let as_text: String = TxResult::Signature(signature).into();
    assert_eq!(as_text, text);
    assert_eq!(as_text, solana_sdk::bs58::encode([0x5a; 64]).into_string());
    let as_text: String = TxResult::BundleID("abc".to_string()).into();
    assert_eq!(as_text, "abc");
    assert_eq!(String::from(TxResult::BundleID(String::new())), "");
    assert_eq!(signature_result(&text), Ok(TxResult::Signature(signature)));
    assert_eq!(signature_result("abc"), Err(Error::MalformedResponse));
    assert_eq!(signature_result("not base58 0OIl"), Err(Error::MalformedResponse));
}

#[test]
fn success_is_the_two_hundreds() {
    assert!(!status_is_success(199));
    assert!(status_is_success(200));
    assert!(status_is_success(204));
    assert!(status_is_success(299));
    assert!(!status_is_success(300));
    assert!(!status_is_success(404));
    assert!(!status_is_success(0));
}

#[test]
fn the_bundle_relay_gets_a_json_rpc_call_with_base58() {
    let sender = JitoTxSender::new("jito".to_string(), "https://relay/a".to_string(), config());
    assert_eq!(sender.name(), "jito");
    let wire = build_wire(&config(), &RpcType::Jito, blockhash(), swap()).unwrap();
    assert_eq!(tip_receiver(&wire), JITO_TIP_ID);
    let encoded = solana_sdk::bs58::encode(&wire).into_string();
    assert_ne!(encoded.as_bytes(), &wire[..]);
    let expected = HttpRequest {
        url: "https://relay/a".to_string(),
        headers: vec![header("Content-Type", "application/json")],
        body: format!(
            "{{\"jsonrpc\":\"2.0\",\"id\":1,\"method\":\"sendTransaction\",\"params\":[\"{}\"]}}",
            encoded
        ),
    };
    assert_eq!(sender.prepare(0, blockhash(), swap()), Ok(Submission::Http(expected.clone())));
    let parsed: serde_json::Value = serde_json::from_str(&expected.body).unwrap();
    assert_eq!(parsed["jsonrpc"], "2.0");
    assert_eq!(parsed["id"], 1);
    assert_eq!(parsed["method"], "sendTransaction");
    assert_eq!(parsed["params"][0], encoded.as_str());
    assert_eq!(parsed["params"].as_array().unwrap().len(), 1);
    let built = sender.build_transaction_with_config(0, blockhash(), swap()).unwrap();
    assert_eq!(pool_sniper::tx_senders::transaction::serialize_transaction(&built).unwrap(), wire);
}

#[test]
fn the_bundle_relay_answers_with_an_identifier() {
    let sender = JitoTxSender::new("jito".to_string(), "u".to_string(), config());
    assert_eq!(
        sender.complete(http(200, "{\"jsonrpc\":\"2.0\",\"result\":\"bundle-7\",\"id\":1}")),
        Ok(TxResult::BundleID("bundle-7".to_string()))
    );
    assert_eq!(
        sender.complete(http(500, "overloaded")),
        Err(Error::Rejected("overloaded".to_string()))
    );
    assert_eq!(
        sender.complete(http(429, "{\"result\":\"x\"}")),
        Err(Error::Rejected("{\"result\":\"x\"}".to_string()))
    );
    assert_eq!(sender.complete(http(200, "{\"result\":5}")), Err(Error::MalformedResponse));
    assert_eq!(sender.complete(http(200, "{\"other\":\"x\"}")), Err(Error::MalformedResponse));
    assert_eq!(sender.complete(http(200, "not json")), Err(Error::MalformedResponse));
    assert_eq!(sender.complete(http(200, "[\"x\"]")), Err(Error::MalformedResponse));
    assert_eq!(
        sender.complete(Reply::Failure("timed out".to_string())),
        Err(Error::Custom("timed out".to_string()))
    );
    assert_eq!(
        sender.complete(Reply::Signature(Signature { bytes: [0; 64] })),
        Err(Error::MalformedResponse)
    );
    assert_eq!(
        JitoResponse::from_json("{\"result\":\"r\"}"),
        Some(JitoResponse { result: "r".to_string() })
    );
    assert_eq!(JitoResponse::from_json("{}"), None);
}

#[test]
fn the_first_content_relay_gets_base64_under_its_credential() {
    let sender = BloxrouteTxSender::new(
        "blox".to_string(),
        "https://relay/b".to_string(),
        config(),
        Some("secret-token".to_string()),
    );
    assert_eq!(sender.name(), "blox");
    let wire = build_wire(&config(), &RpcType::Bloxroute, blockhash(), swap()).unwrap();
    assert_eq!(tip_receiver(&wire), BLOXROUTE_TIP_ID);
    #[allow(deprecated)]
    let encoded = base64::encode(&wire);
    let expected = HttpRequest {
        url: "https://relay/b".to_string(),
        headers: vec![
            header("Content-Type", "application/json"),
            header("Authorization", "secret-token"),
        ],
        body: format!("{{\"transaction\":{{\"content\":\"{}\"}}}}", encoded),
    };
    assert_eq!(sender.prepare(0, blockhash(), swap()), Ok(Submission::Http(expected.clone())));
    let parsed: serde_json::Value = serde_json::from_str(&expected.body).unwrap();
    assert_eq!(parsed["transaction"]["content"], encoded.as_str());
    assert_eq!(parsed.as_object().unwrap().len(), 1);
    let without = BloxrouteTxSender::new("b".to_string(), "u".to_string(), config(), None);
    match without.prepare(0, blockhash(), swap()) {
        Ok(Submission::Http(request)) => {
            assert_eq!(request.headers[1], header("Authorization", ""))
        }
        other => panic!("a request is prepared, got {:?}", other),
    }
}

#[test]
fn the_first_content_relay_answers_with_a_signature() {
    let sender = BloxrouteTxSender::new("b".to_string(), "u".to_string(), config(), None);
    let (signature, text) = some_signature();
    assert_eq!(
        sender.complete(http(200, &format!("{{\"signature\":\"{}\"}}", text))),
        Ok(TxResult::Signature(signature))
    );
    assert_eq!(
        sender.complete(http(201, &format!("{{\"signature\":\"{}\",\"uuid\":\"u\"}}", text))),
        Ok(TxResult::Signature(signature))
    );
    assert_eq!(
        sender.complete(http(200, "{\"signature\":\"abc\"}")),
        Err(Error::MalformedResponse)
    );
    assert_eq!(sender.complete(http(200, "{}")), Err(Error::MalformedResponse));
    assert_eq!(sender.complete(http(403, "no")), Err(Error::Rejected("no".to_string())));
    assert_eq!(
        sender.complete(Reply::Failure("refused".to_string())),
        Err(Error::Custom("refused".to_string()))
    );
    assert_eq!(
        BloxrouteResponse::from_json("{\"signature\":\"s\"}"),
        Some(BloxrouteResponse { signature: "s".to_string() })
    );
    assert_eq!(BloxrouteResponse::from_json("{\"signature\":null}"), None);
}

#[test]
fn the_second_content_relay_switches_protection_off() {
    let sender = NextblockTxSender::new(
        "next".to_string(),
        "https://relay/c".to_string(),
        config(),
        Some("k".to_string()),
    );
    assert_eq!(sender.name(), "next");
    let wire = build_wire(&config(), &RpcType::Nextblock, blockhash(), swap()).unwrap();
    assert_eq!(tip_receiver(&wire), NEXTBLOCK_BLOCK_TIP_ID);
    #[allow(deprecated)]
    let encoded = base64::encode(&wire);
    let expected = HttpRequest {
        url: "https://relay/c".to_string(),
        headers: vec![header("Content-Type", "application/json"), header("Authorization", "k")],
        body: format!(
            "{{\"transaction\":{{\"content\":\"{}\"}},\"frontRunningProtection\":false}}",
            encoded
        ),
    };
    assert_eq!(sender.prepare(0, blockhash(), swap()), Ok(Submission::Http(expected.clone())));
    let parsed: serde_json::Value = serde_json::from_str(&expected.body).unwrap();
    assert_eq!(parsed["transaction"]["content"], encoded.as_str());
    assert_eq!(parsed["frontRunningProtection"], false);
}

#[test]
fn the_second_content_relay_answers_with_signature_and_identifier() {
    let sender = NextblockTxSender::new("n".to_string(), "u".to_string(), config(), None);
    let (signature, text) = some_signature();
    assert_eq!(
        sender.complete(http(200, &format!("{{\"signature\":\"{}\",\"uuid\":\"u-1\"}}", text))),
        Ok(TxResult::Signature(signature))
    );
    assert_eq!(
        sender.complete(http(200, &format!("{{\"signature\":\"{}\"}}", text))),
        Err(Error::MalformedResponse)
    );
    assert_eq!(
        sender.complete(http(200, "{\"signature\":\"abc\",\"uuid\":\"u\"}")),
        Err(Error::MalformedResponse)
    );
    assert_eq!(sender.complete(http(200, "{\"uuid\":\"u\"}")), Err(Error::MalformedResponse));
    assert_eq!(sender.complete(http(502, "bad")), Err(Error::Rejected("bad".to_string())));
    assert_eq!(
        NextblockResponse::from_json("{\"signature\":\"s\",\"uuid\":\"u\"}"),
        Some(NextblockResponse { signature: "s".to_string(), uuid: "u".to_string() })
    );
    assert_eq!(NextblockResponse::from_json("{\"signature\":\"s\"}"), None);
}

#[test]
fn the_node_gets_the_transaction_without_preflight() {
    let sender = GenericRpc::new(
        "node".to_string(),
        "https://node".to_string(),
        config(),
        RpcType::SolanaRpc,
    );
    assert_eq!(sender.name(), "node");
    match sender.prepare(0, blockhash(), swap()) {
        Ok(Submission::Rpc { url, transaction, config: options }) => {
            assert_eq!(url, "https://node");
            assert_eq!(
                options,
                RpcSendTransactionConfig {
                    skip_preflight: true,
                    encoding: Some(UiTransactionEncoding::Base64),
                    max_retries: None,
                    min_context_slot: None,
                }
            );
            assert_eq!(transaction.signatures.len(), 1);
            match transaction.message {
                // limit, price and swap: a node takes no tip
                pool_sniper::message::VersionedMessage::V0(m) => assert_eq!(m.instructions.len(), 3),
                other => panic!("a version-0 message is built, got {:?}", other),
            }
        }
        other => panic!("a node call is prepared, got {:?}", other),
    }
    let (signature, _) = some_signature();
    assert_eq!(sender.complete(Reply::Signature(signature)), Ok(TxResult::Signature(signature)));
    assert_eq!(
        sender.complete(Reply::Failure("connection reset".to_string())),
        Err(Error::Custom("Failed to send transaction for node: connection reset".to_string()))
    );
    assert_eq!(sender.complete(http(200, "{}")), Err(Error::MalformedResponse));
}

fn route_config(url: &str, auth: Option<&str>, rpc_type: RpcType) -> RpcConfig {
    RpcConfig { url: url.to_string(), auth: auth.map(|a| a.to_string()), rpc_type }
}

#[test]
fn a_route_is_made_of_the_configured_kind() {
    match create_tx_sender("a".to_string(), route_config("u1", None, RpcType::SolanaRpc), config()) {
        Route::SolanaRpc(s) => {
            assert_eq!((s.name.as_str(), s.url.as_str(), s.rpc_type), ("a", "u1", RpcType::SolanaRpc))
        }
        _ => panic!("a node route is made"),
    }
    match create_tx_sender("b".to_string(), route_config("u2", Some("x"), RpcType::Jito), config()) {
        Route::Jito(s) => assert_eq!((s.name.as_str(), s.url.as_str()), ("b", "u2")),
        _ => panic!("a bundle relay route is made"),
    }
    match create_tx_sender("c".to_string(), route_config("u3", Some("x"), RpcType::Bloxroute), config())
    {
        Route::Bloxroute(s) => {
            assert_eq!((s.name.as_str(), s.url.as_str(), s.auth.as_deref()), ("c", "u3", Some("x")))
        }
        _ => panic!("a content relay route is made"),
    }
    match create_tx_sender("d".to_string(), route_config("u4", None, RpcType::Nextblock), config()) {
        Route::Nextblock(s) => {
            assert_eq!((s.name.as_str(), s.url.as_str(), s.auth.as_deref()), ("d", "u4", None))
        }
        _ => panic!("a content relay route is made"),
    }
}

fn three_routes() -> Bench {
    Bench::new(
        &vec![
            ("one".to_string(), route_config("https://one", None, RpcType::Jito)),
            ("two".to_string(), route_config("https://two", Some("t"), RpcType::Nextblock)),
            ("three".to_string(), route_config("https://three", None, RpcType::SolanaRpc)),
        ],
        config(),
    )
}

#[test]
fn every_route_gets_its_own_submission() {
    let bench = three_routes();
    assert_eq!(bench.rpcs.len(), 3);
    let names: Vec<String> = bench.rpcs.iter().map(|r| r.name()).collect();
    assert_eq!(names, vec!["one", "two", "three"]);
    assert!(Arc::ptr_eq(
        match &bench.rpcs[0] {
            Route::Jito(s) => &s.tx_config.keypair,
            _ => panic!("the first route is the bundle relay"),
        },
        match &bench.rpcs[2] {
            Route::SolanaRpc(s) => &s.tx_config.keypair,
            _ => panic!("the third route is the node"),
        }
    ));
    let prepared = bench.send_swap_tx(blockhash(), swap());
    assert_eq!(prepared.len(), 3);
    for (route, submission) in bench.rpcs.iter().zip(prepared.iter()) {
        assert_eq!(*submission, route.prepare(0, blockhash(), swap()));
        assert_eq!(
            *submission,
            Bench::send_and_confirm_transaction(0, route, blockhash(), swap())
        );
    }
    match (&prepared[0], &prepared[1], &prepared[2]) {
        (Ok(Submission::Http(a)), Ok(Submission::Http(b)), Ok(Submission::Rpc { url, .. })) => {
            assert_eq!(a.url, "https://one");
            assert_eq!(b.url, "https://two");
            assert_eq!(url, "https://three");
            assert_ne!(a.body, b.body);
        }
        other => panic!("two requests and a node call are prepared, got {:?}", other),
    }
    assert_eq!(Bench::new(&vec![], config()).send_swap_tx(blockhash(), swap()), vec![]);
}

#[test]
fn the_failure_of_one_route_leaves_the_others() {
    let bench = three_routes();
    let (signature, text) = some_signature();
    let replies = vec![
        http(200, "{\"result\":\"bundle\"}"),
        http(503, "down"),
        Reply::Signature(signature),
    ];
    let outcomes: Vec<_> = replies
        .into_iter()
        .enumerate()
        .map(|(i, reply)| bench.complete(i, reply))
        .collect();
    assert_eq!(
        outcomes,
        vec![
            Some(Ok(TxResult::BundleID("bundle".to_string()))),
            Some(Err(Error::Rejected("down".to_string()))),
            Some(Ok(TxResult::Signature(signature))),
        ]
    );
    assert_eq!(
        bench.complete(1, http(200, &format!("{{\"signature\":\"{}\",\"uuid\":\"u\"}}", text))),
        Some(Ok(TxResult::Signature(signature)))
    );
    assert_eq!(bench.complete(3, http(200, "{}")), None);
}

#[test]
fn the_dispatch_is_over_only_when_every_route_has_resolved() {
    let bench = three_routes();
    let (signature, _) = some_signature();
    let mut race = bench.start();
    assert!(!race.is_complete());
    // the route that fails is the first to come back
    assert!(bench.finish(&mut race, 1, http(500, "down")));
    assert!(!race.is_complete());
    assert!(bench.finish(&mut race, 0, http(200, "{\"result\":\"bundle\"}")));
    assert!(!race.is_complete());
    assert_eq!(race.outcome(2), None);
    assert!(bench.finish(&mut race, 2, Reply::Signature(signature)));
    assert!(race.is_complete());
    assert_eq!(race.outcome(0), Some(&Ok(TxResult::BundleID("bundle".to_string()))));
    assert_eq!(race.outcome(1), Some(&Err(Error::Rejected("down".to_string()))));
    assert_eq!(race.outcome(2), Some(&Ok(TxResult::Signature(signature))));
    assert_eq!(race.outcome(3), None);
}

#[test]
fn the_first_outcome_of_a_route_stays() {
    let mut race = Race::new(2);
    assert!(race.record(0, Err(Error::CompileFailed)));
    assert!(!race.record(0, Ok(TxResult::BundleID("late".to_string()))));
    assert!(!race.record(2, Ok(TxResult::BundleID("nowhere".to_string()))));
    assert_eq!(race.outcome(0), Some(&Err(Error::CompileFailed)));
    assert!(!race.is_complete());
    assert!(race.record(1, Ok(TxResult::BundleID("b".to_string()))));
    assert!(race.is_complete());
    assert!(Race::new(0).is_complete());
    let bench = three_routes();
    let mut race = bench.start();
    assert!(!bench.finish(&mut race, 3, http(200, "{}")));
    assert!(bench.finish(&mut race, 0, http(200, "{}")));
    assert!(!bench.finish(&mut race, 0, http(200, "{\"result\":\"x\"}")));
    assert_eq!(race.outcome(0), Some(&Err(Error::MalformedResponse)));
}
