use pool_sniper::error::Error;
use pool_sniper::keys::{Address, Blockhash, Signature};
use pool_sniper::latch::{Reaction, TriggerLatch};
use pool_sniper::message::{
    CompiledInstruction, LegacyMessage, LoadedAddresses, MessageHeader, TransactionStatusMeta,
    VersionedMessage, VersionedTransaction,
};
use pool_sniper::meteora::{
    transaction_filter, MeteoraController, TransactionFilter,
    INITIALIZE_PERMISSIONLESS_CONSTANT_PRODUCT_POOL_WITH_CONFIG_2_DISC,
};
use pool_sniper::tx_senders::constants::{METEORA_PROGRAM_ID, WSOL_ACCOUNT_ID};

fn no_loaded() -> TransactionStatusMeta {
    TransactionStatusMeta { loaded_addresses: LoadedAddresses { writable: vec![], readonly: vec![] } }
}

fn signature() -> Signature {
    Signature { bytes: [1; 64] }
}

/// A transaction whose one instruction goes to the key at index 24, with the
/// keys 0 to 22 as its accounts and the native mint at index 4.
fn transaction(program: [u8; 32], data: Vec<u8>, blockhash: u8, pool: u8) -> VersionedTransaction {
    let mut keys: Vec<Address> = (0..24).map(|i| Address::new([50 + i; 32])).collect();
    keys[0] = Address::new([pool; 32]);
    keys[4] = Address::new(WSOL_ACCOUNT_ID);
    keys.push(Address::new(program));
    VersionedTransaction {
        signatures: vec![signature()],
        message: VersionedMessage::Legacy(LegacyMessage {
            header: MessageHeader {
                num_required_signatures: 1,
                num_readonly_signed_accounts: 0,
                num_readonly_unsigned_accounts: 1,
            },
            account_keys: keys,
            recent_blockhash: Blockhash { bytes: [blockhash; 32] },
            instructions: vec![CompiledInstruction {
                program_id_index: 24,
                accounts: (0..23).collect(),
                data,
            }],
        }),
    }
}

fn pool_creation(blockhash: u8, pool: u8) -> VersionedTransaction {
    let mut data = INITIALIZE_PERMISSIONLESS_CONSTANT_PRODUCT_POOL_WITH_CONFIG_2_DISC.to_vec();
    data.extend_from_slice(&1000u64.to_le_bytes());
    data.extend_from_slice(&2000u64.to_le_bytes());
    data.push(0);
    transaction(METEORA_PROGRAM_ID, data, blockhash, pool)
}

#[test]
fn the_latch_arms_once() {
    let mut latch = TriggerLatch::new();
    assert!(!latch.is_armed());
    assert!(latch.arm());
    assert!(latch.is_armed());
    assert!(!latch.arm());
    assert!(!latch.arm());
    assert!(latch.is_armed());
}

#[test]
fn two_pools_in_sequence_dispatch_once() {
    let mut controller = MeteoraController::new();
    assert!(!controller.is_armed());
    let first =
        controller.transaction_handler(signature(), pool_creation(7, 1), no_loaded(), false, 10);
    match first {
        Ok(Reaction::Dispatch { recent_blockhash, found }) => {
            assert_eq!(recent_blockhash, Blockhash { bytes: [7; 32] });
            assert_eq!(found.pool, Address::new([1; 32]));
            assert_eq!(found.token_b_mint, Address::new(WSOL_ACCOUNT_ID));
        }
        other => panic!("the first pool is dispatched, got {:?}", other),
    }
    assert!(controller.is_armed());
    let second =
        controller.transaction_handler(signature(), pool_creation(8, 2), no_loaded(), false, 11);
    match second {
        Ok(Reaction::Observed(found)) => assert_eq!(found.pool, Address::new([2; 32])),
        other => panic!("the second pool is only observed, got {:?}", other),
    }
    assert!(controller.is_armed());
}

#[test]
fn transactions_without_a_pool_do_not_arm() {
    let mut controller = MeteoraController::new();
    let other = transaction([9; 32], vec![1, 2, 3], 1, 1);
    assert_eq!(
        controller.transaction_handler(signature(), other, no_loaded(), false, 1),
        Ok(Reaction::Ignore)
    );
    assert!(!controller.is_armed());
    let mut broken = pool_creation(1, 1);
    if let VersionedMessage::Legacy(m) = &mut broken.message {
        m.instructions[0].data.truncate(12);
    }
    assert_eq!(
        controller.transaction_handler(signature(), broken, no_loaded(), false, 2),
        Err(Error::MalformedPayload)
    );
    assert!(!controller.is_armed());
    let mut unresolvable = pool_creation(1, 1);
    if let VersionedMessage::Legacy(m) = &mut unresolvable.message {
        m.instructions[0].program_id_index = 99;
    }
    assert_eq!(
        controller.transaction_handler(signature(), unresolvable, no_loaded(), true, 3),
        Err(Error::ProgramIdOutOfRange { instruction: 0 })
    );
    assert!(!controller.is_armed());
    match controller.transaction_handler(signature(), pool_creation(3, 5), no_loaded(), false, 4) {
        Ok(Reaction::Dispatch { .. }) => {}
        other => panic!("the first pool is dispatched, got {:?}", other),
    }
}

#[test]
fn failures_after_arming_are_still_reported() {
    let mut controller = MeteoraController::new();
    let _ = controller.transaction_handler(signature(), pool_creation(1, 1), no_loaded(), false, 1);
    let mut broken = pool_creation(1, 1);
    if let VersionedMessage::Legacy(m) = &mut broken.message {
        m.instructions[0].data.truncate(9);
    }
    assert_eq!(
        controller.transaction_handler(signature(), broken, no_loaded(), false, 2),
        Err(Error::MalformedPayload)
    );
    assert!(controller.is_armed());
}

#[test]
fn the_feed_is_asked_for_pool_program_transactions() {
    assert_eq!(
        transaction_filter(),
        TransactionFilter {
            vote: Some(false),
            failed: Some(false),
            account_include: vec!["Eo7WjKq67rjJQSZxS6z3YkapzY3eMj6Xy8X5EQVn5UaB".to_string()],
            account_exclude: vec![],
            account_required: vec!["So11111111111111111111111111111111111111112".to_string()],
            signature: None,
        }
    );
    assert_eq!(pool_sniper::METEORA_PROGRAM_ID, METEORA_PROGRAM_ID);
    assert_eq!(pool_sniper::WSOL_ACCOUNT_ID, WSOL_ACCOUNT_ID);
}
