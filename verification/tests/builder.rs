use pool_sniper::config::RpcType;
use pool_sniper::keys::{Address, Blockhash};
use pool_sniper::meteora::SwapData;
use pool_sniper::error::Error;
use pool_sniper::instruction::AccountMeta;
use pool_sniper::tx_senders::constants::{
    ASSOCIATED_TOKEN_PROGRAM_ADDR, ASSOCIATED_TOKEN_PROGRAM_ID, BLOXROUTE_TIP_ADDR,
    BLOXROUTE_TIP_ID, COMPUTE_BUDGET_PROGRAM_ADDR, COMPUTE_BUDGET_PROGRAM_ID, JITO_TIP_ADDR,
    JITO_TIP_ID, METEORA_PROGRAM_ID, NEXTBLOCK_BLOCK_TIP_ADDR, NEXTBLOCK_BLOCK_TIP_ID,
    PUMPFUN_PROGRAM_ID, PUMP_FUN_PROGRAM_ADDR, SYSTEM_PROGRAM_ADDR, SYSTEM_PROGRAM_ID,
    TOKEN_PROGRAM_ADDR, TOKEN_PROGRAM_ID, WSOL_ACCOUNT_ID,
};
use pool_sniper::tx_senders::transaction::{
    build_transaction_with_config, build_wire, get_associated_token_address,
    serialize_transaction, swap_instructions, tip_account, Keypair, TransactionConfig,
    SWAP_METHOD,
};
use solana_sdk::pubkey::Pubkey;
use solana_sdk::signature::SeedDerivable;
use solana_sdk::signer::Signer;
use std::str::FromStr;
use std::sync::Arc;

fn key(n: u8) -> Address {
    Address::new([n; 32])
}

fn sample_swap() -> SwapData {
    SwapData::new(
        key(1),
        Address::new(WSOL_ACCOUNT_ID),
        key(3),
        key(4),
        key(5),
        key(6),
        key(7),
        key(8),
        key(9),
        key(10),
        key(11),
        key(12),
        key(13),
        key(14),
    )
}

fn sample_keypair() -> Keypair {
    let sdk = solana_sdk::signer::keypair::Keypair::from_seed(&[7u8; 32]).unwrap();
    match Keypair::from_bytes(sdk.to_bytes()) {
        Ok(keypair) => keypair,
        Err(e) => panic!("the seed gives a key pair, got {:?}", e),
    }
}

fn sample_config(limit: u32, price: u64, tip: u64) -> TransactionConfig {
    TransactionConfig {
        keypair: Arc::new(sample_keypair()),
        compute_unit_limit: limit,
        compute_unit_price: price,
        tip,
        buy_amount: 1_000_000,
        min_amount_out: 42,
    }
}

#[test]
fn price_tip_swap_in_order_without_limit() {
    let config = sample_config(0, 5_000, 100_000);
    let ixs = swap_instructions(&config, &RpcType::Jito, sample_swap()).unwrap();
    assert_eq!(ixs.len(), 3);
    let expected_price =
        solana_sdk::compute_budget::ComputeBudgetInstruction::set_compute_unit_price(5_000);
    assert_eq!(ixs[0].program_id.bytes, expected_price.program_id.to_bytes());
    assert_eq!(ixs[0].data, vec![3, 0x88, 0x13, 0, 0, 0, 0, 0, 0]);
    assert!(ixs[0].accounts.is_empty());
    assert_eq!(ixs[1].program_id.bytes, [0u8; 32]);
    assert_eq!(ixs[1].accounts.len(), 2);
    assert_eq!(ixs[1].accounts[0].pubkey, config.keypair.pubkey());
    assert!(ixs[1].accounts[0].is_signer && ixs[1].accounts[0].is_writable);
    assert_eq!(ixs[1].accounts[1].pubkey.bytes, JITO_TIP_ID);
    assert!(!ixs[1].accounts[1].is_signer && ixs[1].accounts[1].is_writable);
    assert_eq!(ixs[1].data, vec![2, 0, 0, 0, 0xa0, 0x86, 0x01, 0, 0, 0, 0, 0]);
    assert_eq!(ixs[2].program_id.bytes, METEORA_PROGRAM_ID);
    assert_eq!(ixs[2].accounts.len(), 15);
    assert_eq!(ixs[2].data.len(), 24);
    assert_eq!(&ixs[2].data[..8], &[248, 198, 158, 145, 225, 117, 135, 200]);
    assert_eq!(&ixs[2].data[..8], &solana_sdk::hash::hash(b"global:swap").to_bytes()[..8]);
    assert_eq!(&ixs[2].data[8..16], &1_000_000u64.to_le_bytes());
    assert_eq!(&ixs[2].data[16..], &42u64.to_le_bytes());
}

#[test]
fn built_transaction_is_signed_by_the_owner() {
    let config = sample_config(200_000, 5_000, 100_000);
    let blockhash = Blockhash { bytes: [9u8; 32] };
    let tx = build_transaction_with_config(&config, &RpcType::Bloxroute, blockhash, sample_swap())
        .unwrap();
    assert_eq!(tx.signatures.len(), 1);
    match &tx.message {
        pool_sniper::message::VersionedMessage::V0(m) => {
            assert_eq!(m.header.num_required_signatures, 1);
            assert_eq!(m.account_keys[0], config.keypair.pubkey());
            assert_eq!(m.recent_blockhash, blockhash);
            assert_eq!(m.instructions.len(), 4);
            assert!(m.address_table_lookups.is_empty());
        }
        _ => panic!("a version-0 message is built"),
    }
}

fn sdk_keypair() -> solana_sdk::signer::keypair::Keypair {
    solana_sdk::signer::keypair::Keypair::from_seed(&[7u8; 32]).unwrap()
}

fn ata(owner: &Address, mint: &Address) -> Address {
    let (address, _) = Pubkey::find_program_address(
        &[&owner.bytes, &TOKEN_PROGRAM_ID, &mint.bytes],
        &Pubkey::new_from_array(ASSOCIATED_TOKEN_PROGRAM_ID),
    );
    Address::new(address.to_bytes())
}

#[test]
fn the_key_pair_has_the_ledgers_address() {
    let sdk = sdk_keypair();
    let keypair = sample_keypair();
    assert_eq!(keypair.pubkey().bytes, sdk.pubkey().to_bytes());
    assert_ne!(keypair.pubkey().bytes, [0u8; 32]);
}

#[test]
fn bytes_that_are_no_key_pair_are_refused() {
    let mut bytes = sdk_keypair().to_bytes();
    bytes[40] ^= 0xff;
    assert_eq!(Keypair::from_bytes(bytes).err(), Some(Error::InvalidKeypair));
    assert_eq!(Keypair::from_bytes([3u8; 64]).err(), Some(Error::InvalidKeypair));
}

#[test]
fn token_accounts_are_the_associated_ones() {
    let owner = sample_keypair().pubkey();
    let wsol = Address::new(WSOL_ACCOUNT_ID);
    let got = get_associated_token_address(&owner, &wsol).unwrap();
    assert_eq!(got, ata(&owner, &wsol));
    assert_ne!(got, owner);
    let other = get_associated_token_address(&owner, &key(3)).unwrap();
    assert_eq!(other, ata(&owner, &key(3)));
    assert_ne!(other, got);
}

#[test]
fn swap_accounts_follow_the_programs_order() {
    let config = sample_config(0, 0, 0);
    let owner = config.keypair.pubkey();
    let swap = sample_swap();
    let ixs = swap_instructions(&config, &RpcType::SolanaRpc, swap).unwrap();
    assert_eq!(ixs.len(), 1);
    let w = |pubkey: Address| AccountMeta { pubkey, is_signer: false, is_writable: true };
    let r = |pubkey: Address| AccountMeta { pubkey, is_signer: false, is_writable: false };
    let expected = vec![
        r(swap.pool),
        w(ata(&owner, &Address::new(WSOL_ACCOUNT_ID))),
        w(ata(&owner, &swap.token_b_mint)),
        w(swap.a_vault),
        w(swap.b_vault),
        w(swap.a_token_vault),
        w(swap.b_token_vault),
        w(swap.a_vault_lp_mint),
        w(swap.b_vault_lp_mint),
        w(swap.a_vault_lp),
        w(swap.b_vault_lp),
        w(swap.protocol_token_a_fee),
        r(owner),
        r(swap.vault_programm),
        r(Address::new(TOKEN_PROGRAM_ID)),
    ];
    assert_eq!(ixs[0].accounts, expected);
}

#[test]
fn the_native_mint_on_the_b_side_swaps_the_roles() {
    let config = sample_config(0, 0, 0);
    let owner = config.keypair.pubkey();
    let mut swap = sample_swap();
    swap.token_a_mint = key(2);
    swap.token_b_mint = Address::new(WSOL_ACCOUNT_ID);
    let ixs = swap_instructions(&config, &RpcType::SolanaRpc, swap).unwrap();
    let accounts = &ixs[0].accounts;
    assert_eq!(accounts[1].pubkey, ata(&owner, &Address::new(WSOL_ACCOUNT_ID)));
    assert_eq!(accounts[2].pubkey, ata(&owner, &key(2)));
    assert_eq!(accounts[11].pubkey, swap.protocol_token_b_fee);
}

#[test]
fn budget_instructions_come_only_where_configured() {
    let swap = sample_swap();
    let count = |limit, price, tip, kind: RpcType| {
        swap_instructions(&sample_config(limit, price, tip), &kind, swap).unwrap().len()
    };
    assert_eq!(count(0, 0, 0, RpcType::Jito), 1);
    assert_eq!(count(1, 0, 0, RpcType::Jito), 2);
    assert_eq!(count(0, 1, 0, RpcType::Jito), 2);
    assert_eq!(count(0, 0, 1, RpcType::Jito), 2);
    assert_eq!(count(1, 1, 1, RpcType::Jito), 4);
    // a route without a tip account gets no tip
    assert_eq!(count(1, 1, 1, RpcType::SolanaRpc), 3);
    assert_eq!(count(0, 0, 1, RpcType::SolanaRpc), 1);
}

#[test]
fn limit_price_tip_swap_in_order() {
    let config = sample_config(200_000, 7, 9);
    let ixs = swap_instructions(&config, &RpcType::Nextblock, sample_swap()).unwrap();
    assert_eq!(ixs.len(), 4);
    assert_eq!(ixs[0].program_id.bytes, COMPUTE_BUDGET_PROGRAM_ID);
    assert_eq!(ixs[0].data, vec![2, 0x40, 0x0d, 0x03, 0]);
    assert_eq!(ixs[1].program_id.bytes, COMPUTE_BUDGET_PROGRAM_ID);
    assert_eq!(ixs[1].data, vec![3, 7, 0, 0, 0, 0, 0, 0, 0]);
    assert_eq!(ixs[2].program_id.bytes, SYSTEM_PROGRAM_ID);
    assert_eq!(ixs[2].accounts[1].pubkey.bytes, NEXTBLOCK_BLOCK_TIP_ID);
    assert_eq!(ixs[2].data, vec![2, 0, 0, 0, 9, 0, 0, 0, 0, 0, 0, 0]);
    assert_eq!(ixs[3].program_id.bytes, METEORA_PROGRAM_ID);
}

#[test]
fn each_route_tips_its_own_account() {
    assert_eq!(tip_account(&RpcType::Jito), Some(Address::new(JITO_TIP_ID)));
    assert_eq!(tip_account(&RpcType::Bloxroute), Some(Address::new(BLOXROUTE_TIP_ID)));
    assert_eq!(tip_account(&RpcType::Nextblock), Some(Address::new(NEXTBLOCK_BLOCK_TIP_ID)));
    assert_eq!(tip_account(&RpcType::SolanaRpc), None);
    assert_eq!(RpcType::default(), RpcType::SolanaRpc);
    let config = sample_config(0, 0, 5);
    for (kind, tip) in [
        (RpcType::Jito, JITO_TIP_ID),
        (RpcType::Bloxroute, BLOXROUTE_TIP_ID),
        (RpcType::Nextblock, NEXTBLOCK_BLOCK_TIP_ID),
    ] {
        let ixs = swap_instructions(&config, &kind, sample_swap()).unwrap();
        assert_eq!(ixs[0].accounts[1].pubkey.bytes, tip);
    }
}

#[test]
fn the_address_constants_are_the_texts_decoded() {
    for (text, bytes) in [
        (JITO_TIP_ADDR, JITO_TIP_ID),
        (BLOXROUTE_TIP_ADDR, BLOXROUTE_TIP_ID),
        (NEXTBLOCK_BLOCK_TIP_ADDR, NEXTBLOCK_BLOCK_TIP_ID),
        (SYSTEM_PROGRAM_ADDR, SYSTEM_PROGRAM_ID),
        (TOKEN_PROGRAM_ADDR, TOKEN_PROGRAM_ID),
        (ASSOCIATED_TOKEN_PROGRAM_ADDR, ASSOCIATED_TOKEN_PROGRAM_ID),
        (COMPUTE_BUDGET_PROGRAM_ADDR, COMPUTE_BUDGET_PROGRAM_ID),
        (PUMP_FUN_PROGRAM_ADDR, PUMPFUN_PROGRAM_ID),
    ] {
        assert_eq!(Pubkey::from_str(text).unwrap().to_bytes(), bytes);
    }
    assert_eq!(solana_sdk::system_program::id().to_bytes(), SYSTEM_PROGRAM_ID);
    assert_eq!(solana_sdk::compute_budget::id().to_bytes(), COMPUTE_BUDGET_PROGRAM_ID);
    assert_eq!(&SWAP_METHOD, b"global:swap");
}

#[test]
fn budget_and_tip_instructions_are_the_ledgers() {
    let config = sample_config(123_456, 987_654_321, 5_000_000_000);
    let owner = config.keypair.pubkey();
    let ixs = swap_instructions(&config, &RpcType::Bloxroute, sample_swap()).unwrap();
    let expected = [
        solana_sdk::compute_budget::ComputeBudgetInstruction::set_compute_unit_limit(123_456),
        solana_sdk::compute_budget::ComputeBudgetInstruction::set_compute_unit_price(987_654_321),
        solana_sdk::system_instruction::transfer(
            &Pubkey::new_from_array(owner.bytes),
            &Pubkey::new_from_array(BLOXROUTE_TIP_ID),
            5_000_000_000,
        ),
    ];
    for (got, want) in ixs.iter().zip(expected.iter()) {
        assert_eq!(got.program_id.bytes, want.program_id.to_bytes());
        assert_eq!(got.data, want.data);
        assert_eq!(got.accounts.len(), want.accounts.len());
        for (a, b) in got.accounts.iter().zip(want.accounts.iter()) {
            assert_eq!(a.pubkey.bytes, b.pubkey.to_bytes());
            assert_eq!(a.is_signer, b.is_signer);
            assert_eq!(a.is_writable, b.is_writable);
        }
    }
}

#[test]
fn the_wire_bytes_are_a_transaction_that_verifies() {
    let config = sample_config(200_000, 5_000, 100_000);
    let blockhash = Blockhash { bytes: [9u8; 32] };
    let wire = build_wire(&config, &RpcType::Jito, blockhash, sample_swap()).unwrap();
    let tx: solana_sdk::transaction::VersionedTransaction = bincode::deserialize(&wire).unwrap();
    assert!(tx.verify_with_results().iter().all(|ok| *ok));
    assert_eq!(tx.signatures.len(), 1);
    assert_eq!(tx.message.recent_blockhash().to_bytes(), [9u8; 32]);
    assert_eq!(tx.message.static_account_keys()[0].to_bytes(), config.keypair.pubkey().bytes);
    assert_eq!(tx.message.instructions().len(), 4);
    // the same inputs give the same bytes
    let again = build_wire(&config, &RpcType::Jito, blockhash, sample_swap()).unwrap();
    assert_eq!(wire, again);
    let built =
        build_transaction_with_config(&config, &RpcType::Jito, blockhash, sample_swap()).unwrap();
    assert_eq!(serialize_transaction(&built).unwrap(), wire);
    let signature: [u8; 64] = tx.signatures[0].into();
    assert_eq!(built.signatures[0].bytes, signature);
}

#[test]
fn the_built_message_is_the_ledgers_compilation() {
    let config = sample_config(1, 2, 3);
    let owner = Pubkey::new_from_array(config.keypair.pubkey().bytes);
    let blockhash = Blockhash { bytes: [4u8; 32] };
    let ixs = swap_instructions(&config, &RpcType::Jito, sample_swap()).unwrap();
    let sdk_ixs: Vec<solana_sdk::instruction::Instruction> = ixs
        .iter()
        .map(|ix| solana_sdk::instruction::Instruction {
            program_id: Pubkey::new_from_array(ix.program_id.bytes),
            accounts: ix
                .accounts
                .iter()
                .map(|a| solana_sdk::instruction::AccountMeta {
                    pubkey: Pubkey::new_from_array(a.pubkey.bytes),
                    is_signer: a.is_signer,
                    is_writable: a.is_writable,
                })
                .collect(),
            data: ix.data.clone(),
        })
        .collect();
    let expected = solana_sdk::message::v0::Message::try_compile(
        &owner,
        &sdk_ixs,
        &[],
        solana_sdk::hash::Hash::new_from_array([4u8; 32]),
    )
    .unwrap();
    let built =
        build_transaction_with_config(&config, &RpcType::Jito, blockhash, sample_swap()).unwrap();
    let wire = serialize_transaction(&built).unwrap();
    let tx: solana_sdk::transaction::VersionedTransaction = bincode::deserialize(&wire).unwrap();
    assert_eq!(tx.message, solana_sdk::message::VersionedMessage::V0(expected));
}

#[test]
fn a_legacy_transaction_is_not_serialised() {
    let tx = pool_sniper::message::VersionedTransaction {
        signatures: vec![],
        message: pool_sniper::message::VersionedMessage::Legacy(pool_sniper::message::LegacyMessage {
            header: pool_sniper::message::MessageHeader {
                num_required_signatures: 0,
                num_readonly_signed_accounts: 0,
                num_readonly_unsigned_accounts: 0,
            },
            account_keys: vec![],
            recent_blockhash: Blockhash { bytes: [0; 32] },
            instructions: vec![],
        }),
    };
    assert_eq!(serialize_transaction(&tx), Err(Error::SerializeFailed));
}

#[test]
fn a_configuration_clone_shares_the_key() {
    let config = sample_config(1, 2, 3);
    let copy = config.clone();
    assert!(Arc::ptr_eq(&config.keypair, &copy.keypair));
    assert_eq!(copy.compute_unit_limit, 1);
    assert_eq!(copy.compute_unit_price, 2);
    assert_eq!(copy.tip, 3);
    assert_eq!(copy.buy_amount, 1_000_000);
    assert_eq!(copy.min_amount_out, 42);
}

#[test]
fn a_built_transaction_resolves_to_its_instructions() {
    let config = sample_config(10, 20, 30);
    let owner = config.keypair.pubkey();
    let blockhash = Blockhash { bytes: [8u8; 32] };
    let planned = swap_instructions(&config, &RpcType::Bloxroute, sample_swap()).unwrap();
    let built =
        build_transaction_with_config(&config, &RpcType::Bloxroute, blockhash, sample_swap())
            .unwrap();
    assert_eq!(built.signatures.len(), 1);
    match &built.message {
        pool_sniper::message::VersionedMessage::V0(m) => {
            assert_eq!(m.recent_blockhash, blockhash);
            assert_eq!(m.account_keys[0], owner);
            assert_eq!(m.header.num_required_signatures, 1);
            assert!(m.address_table_lookups.is_empty());
        }
        _ => panic!("a version-0 message is built"),
    }
    let meta = pool_sniper::message::TransactionStatusMeta {
        loaded_addresses: pool_sniper::message::LoadedAddresses {
            writable: vec![key(90)],
            readonly: vec![key(91)],
        },
    };
    let resolved = pool_sniper::extract::extract_instructions(meta, built).unwrap();
    assert_eq!(resolved.len(), planned.len());
    for (got, want) in resolved.iter().zip(planned.iter()) {
        assert_eq!(got.program_id, want.program_id);
        assert_eq!(got.data, want.data);
        let got_keys: Vec<Address> = got.accounts.iter().map(|a| a.pubkey).collect();
        let want_keys: Vec<Address> = want.accounts.iter().map(|a| a.pubkey).collect();
        assert_eq!(got_keys, want_keys);
    }
    // the owner pays and signs; the pool is only read
    let swap = resolved.last().unwrap();
    assert!(!swap.accounts[0].is_writable && !swap.accounts[0].is_signer);
    assert!(swap.accounts[12].is_signer && swap.accounts[12].is_writable);
}
