//! Building the buy transaction of a route.

use std::sync::Arc;
use vstd::prelude::*;
use crate::config::RpcType;
use crate::error::Error;
use crate::instruction::{instruction_views, AccountMeta, InstructionView, ResolvedInstruction};
use crate::extract::{key_table, lemma_resolve_in_range, resolution};
use crate::keys::{Address, Blockhash};
use crate::layout::{u32_le_bytes, u64_le_bytes, write_u64};
use crate::message::{
    SignedV0View, TransactionStatusMeta, V0Message, VersionedMessage, VersionedTransaction,
};
use crate::meteora::SwapData;
use crate::sdk;
use crate::tx_senders::constants::{
    ASSOCIATED_TOKEN_PROGRAM_ID, BLOXROUTE_TIP_ID, COMPUTE_BUDGET_PROGRAM_ID, JITO_TIP_ID,
    METEORA_PROGRAM_ID, NEXTBLOCK_BLOCK_TIP_ID, SYSTEM_PROGRAM_ID, TOKEN_PROGRAM_ID,
    WSOL_ACCOUNT_ID,
};

verus! {

/// An ed25519 key pair that signs transactions. It is made from 64 bytes
/// that spell a key pair, and never copied.
pub struct Keypair {
    secret: [u8; 64],
    public: Address,
}

impl Keypair {
    #[verifier::type_invariant]
    spec fn well_formed(&self) -> bool {
        sdk::keypair_address(self.secret@) == Some(self.public)
    }

    /// The 64 bytes of the key pair.
    pub closed spec fn secret_bytes(&self) -> Seq<u8> {
        self.secret@
    }

    /// The address of the key pair.
    pub closed spec fn address(&self) -> Address {
        self.public
    }

    /// The key pair that `bytes` spell. Bytes that spell none are refused.
    pub fn from_bytes(bytes: [u8; 64]) -> (r: Result<Keypair, Error>)
        ensures
            match r {
                Ok(keypair) => keypair.secret_bytes() == bytes@ && sdk::keypair_address(bytes@)
                    == Some(keypair.address()),
                Err(e) => e == Error::InvalidKeypair && sdk::keypair_address(bytes@) is None,
            },
    {
        match sdk::keypair_pubkey(&bytes) {
            Some(public) => Ok(Keypair { secret: bytes, public }),
            None => Err(Error::InvalidKeypair),
        }
    }

    /// The 64 bytes of the key pair, for signing.
    pub(crate) fn secret(&self) -> (r: &[u8; 64])
        ensures
            r@ == self.secret_bytes(),
    {
        &self.secret
    }

    /// The address of the key pair.
    pub fn pubkey(&self) -> (r: Address)
        ensures
            r == self.address(),
            sdk::keypair_address(self.secret_bytes()) == Some(r),
    {
        proof {
            use_type_invariant(self);
        }
        self.public
    }
}

/// What every route's transaction is built from: the signing key, the
/// compute budget, the tip and the size of the trade.
pub struct TransactionConfig {
    pub keypair: Arc<Keypair>,
    pub compute_unit_limit: u32,
    pub compute_unit_price: u64,
    pub tip: u64,
    pub buy_amount: u64,
    pub min_amount_out: u64,
}

impl Clone for TransactionConfig {
    /// A configuration that shares the key pair.
    fn clone(&self) -> (r: TransactionConfig)
        ensures
            r == *self,
    {
        TransactionConfig {
            keypair: sdk::arc_clone(&self.keypair),
            compute_unit_limit: self.compute_unit_limit,
            compute_unit_price: self.compute_unit_price,
            tip: self.tip,
            buy_amount: self.buy_amount,
            min_amount_out: self.min_amount_out,
        }
    }
}

/// The name whose digest starts the payload of the pool program's swap
/// instruction: `global:swap`.
pub const SWAP_METHOD: [u8; 11] = [103, 108, 111, 98, 97, 108, 58, 115, 119, 97, 112];

/// The first eight bytes of the swap instruction's payload: the start of the
/// SHA-256 digest of the method's name.
pub open spec fn swap_discriminator() -> Seq<u8> {
    sdk::sha256(SWAP_METHOD@).subrange(0, 8)
}

/// The account that takes the tip of a route, for the routes that take one.
pub open spec fn tip_address(rpc_type: RpcType) -> Option<Address> {
    match rpc_type {
        RpcType::Jito => Some(Address { bytes: JITO_TIP_ID }),
        RpcType::Bloxroute => Some(Address { bytes: BLOXROUTE_TIP_ID }),
        RpcType::Nextblock => Some(Address { bytes: NEXTBLOCK_BLOCK_TIP_ID }),
        RpcType::SolanaRpc => None,
    }
}

/// The wallet's token account for a mint: the address that the associated
/// token program derives from the wallet, the token program and the mint.
pub open spec fn token_account(wallet: Address, mint: Address) -> Option<Address> {
    sdk::program_address(
        wallet@,
        TOKEN_PROGRAM_ID@,
        mint@,
        Address { bytes: ASSOCIATED_TOKEN_PROGRAM_ID },
    )
}

/// The mint that a buy receives: the pool's mint that is not the wrapped
/// native token's.
pub open spec fn bought_mint(swap_data: SwapData) -> Address {
    if swap_data.token_a_mint == (Address { bytes: WSOL_ACCOUNT_ID }) {
        swap_data.token_b_mint
    } else {
        swap_data.token_a_mint
    }
}

/// The pool's fee account for the token that a buy pays with, the wrapped
/// native token.
pub open spec fn paid_fee_account(swap_data: SwapData) -> Address {
    if swap_data.token_a_mint == (Address { bytes: WSOL_ACCOUNT_ID }) {
        swap_data.protocol_token_a_fee
    } else {
        swap_data.protocol_token_b_fee
    }
}

/// The swap instruction of the pool program: the pool's accounts in the
/// order of the program's interface, and the discriminator followed by the
/// amount paid and the least amount accepted, each as eight little-endian
/// bytes.
pub open spec fn swap_instruction(
    buy_amount: u64,
    min_amount_out: u64,
    owner: Address,
    swap_data: SwapData,
    user_source_token: Address,
    user_destination_token: Address,
) -> InstructionView {
    InstructionView {
        program_id: Address { bytes: METEORA_PROGRAM_ID },
        accounts: seq![
            AccountMeta { pubkey: swap_data.pool, is_signer: false, is_writable: false },
            AccountMeta { pubkey: user_source_token, is_signer: false, is_writable: true },
            AccountMeta { pubkey: user_destination_token, is_signer: false, is_writable: true },
            AccountMeta { pubkey: swap_data.a_vault, is_signer: false, is_writable: true },
            AccountMeta { pubkey: swap_data.b_vault, is_signer: false, is_writable: true },
            AccountMeta { pubkey: swap_data.a_token_vault, is_signer: false, is_writable: true },
            AccountMeta { pubkey: swap_data.b_token_vault, is_signer: false, is_writable: true },
            AccountMeta { pubkey: swap_data.a_vault_lp_mint, is_signer: false, is_writable: true },
            AccountMeta { pubkey: swap_data.b_vault_lp_mint, is_signer: false, is_writable: true },
            AccountMeta { pubkey: swap_data.a_vault_lp, is_signer: false, is_writable: true },
            AccountMeta { pubkey: swap_data.b_vault_lp, is_signer: false, is_writable: true },
            AccountMeta {
                pubkey: paid_fee_account(swap_data),
                is_signer: false,
                is_writable: true,
            },
            AccountMeta { pubkey: owner, is_signer: false, is_writable: false },
            AccountMeta { pubkey: swap_data.vault_programm, is_signer: false, is_writable: false },
            AccountMeta {
                pubkey: Address { bytes: TOKEN_PROGRAM_ID },
                is_signer: false,
                is_writable: false,
            },
        ],
        data: swap_discriminator() + u64_le_bytes(buy_amount) + u64_le_bytes(min_amount_out),
    }
}

/// The compute-unit-limit instruction.
pub open spec fn limit_instruction(units: u32) -> InstructionView {
    InstructionView {
        program_id: Address { bytes: COMPUTE_BUDGET_PROGRAM_ID },
        accounts: Seq::empty(),
        data: seq![2u8] + u32_le_bytes(units),
    }
}

/// The compute-unit-price instruction.
pub open spec fn price_instruction(micro_lamports: u64) -> InstructionView {
    InstructionView {
        program_id: Address { bytes: COMPUTE_BUDGET_PROGRAM_ID },
        accounts: Seq::empty(),
        data: seq![3u8] + u64_le_bytes(micro_lamports),
    }
}

/// The instruction that moves the tip from the owner to a route's tip
/// account.
pub open spec fn tip_instruction(owner: Address, to: Address, lamports: u64) -> InstructionView {
    InstructionView {
        program_id: Address { bytes: SYSTEM_PROGRAM_ID },
        accounts: seq![
            AccountMeta { pubkey: owner, is_signer: true, is_writable: true },
            AccountMeta { pubkey: to, is_signer: false, is_writable: true },
        ],
        data: seq![2u8, 0u8, 0u8, 0u8] + u64_le_bytes(lamports),
    }
}

/// The instructions that come before the swap, in order: the
/// compute-unit limit if one is configured, the compute-unit price if one is
/// configured, and the tip if one is configured and the route takes tips.
pub open spec fn budget_instructions(
    compute_unit_limit: u32,
    compute_unit_price: u64,
    tip: u64,
    rpc_type: RpcType,
    owner: Address,
) -> Seq<InstructionView> {
    (if compute_unit_limit > 0 {
        seq![limit_instruction(compute_unit_limit)]
    } else {
        Seq::empty()
    }) + (if compute_unit_price > 0 {
        seq![price_instruction(compute_unit_price)]
    } else {
        Seq::empty()
    }) + (match tip_address(rpc_type) {
        Some(to) if tip > 0 => seq![tip_instruction(owner, to, tip)],
        _ => Seq::empty(),
    })
}

impl TransactionConfig {
    /// The instructions of the buy transaction of a route, in order: the
    /// budget instructions, then the swap. There are none where the owner
    /// has no token account for one of the two mints.
    pub open spec fn planned_instructions(&self, rpc_type: RpcType, swap_data: SwapData) -> Result<
        Seq<InstructionView>,
        Error,
    > {
        let owner = self.keypair.address();
        match (
            token_account(owner, Address { bytes: WSOL_ACCOUNT_ID }),
            token_account(owner, bought_mint(swap_data)),
        ) {
            (Some(source), Some(destination)) => Ok(
                budget_instructions(
                    self.compute_unit_limit,
                    self.compute_unit_price,
                    self.tip,
                    rpc_type,
                    owner,
                ).push(
                    swap_instruction(
                        self.buy_amount,
                        self.min_amount_out,
                        owner,
                        swap_data,
                        source,
                        destination,
                    ),
                ),
            ),
            _ => Err(Error::NoDerivedAddress),
        }
    }

    /// The signed transaction of a route: the planned instructions compiled
    /// against the block hash with the owner as payer, and signed by the
    /// owner.
    pub open spec fn planned_transaction(
        &self,
        rpc_type: RpcType,
        recent_blockhash: Blockhash,
        swap_data: SwapData,
    ) -> Result<SignedV0View, Error> {
        match self.planned_instructions(rpc_type, swap_data) {
            Err(e) => Err(e),
            Ok(instructions) => match sdk::compiled_v0(
                self.keypair.address(),
                instructions,
                recent_blockhash,
            ) {
                None => Err(Error::CompileFailed),
                Some(message) => match sdk::v0_signatures(message, self.keypair.secret_bytes()) {
                    None => Err(Error::SigningFailed),
                    Some(signatures) => Ok(SignedV0View { signatures, message }),
                },
            },
        }
    }
}

/// The tip account of a route, for the routes that take tips.
pub fn tip_account(rpc_type: &RpcType) -> (r: Option<Address>)
    ensures
        r == tip_address(*rpc_type),
{
    match rpc_type {
        RpcType::Jito => Some(Address::new(JITO_TIP_ID)),
        RpcType::Bloxroute => Some(Address::new(BLOXROUTE_TIP_ID)),
        RpcType::Nextblock => Some(Address::new(NEXTBLOCK_BLOCK_TIP_ID)),
        RpcType::SolanaRpc => None,
    }
}

/// The wallet's token account for a mint, where one can be derived.
pub fn get_associated_token_address(wallet: &Address, mint: &Address) -> (r: Option<Address>)
    ensures
        r == token_account(*wallet, *mint),
{
    sdk::try_find_program_address(
        &wallet.bytes,
        &TOKEN_PROGRAM_ID,
        &mint.bytes,
        &Address::new(ASSOCIATED_TOKEN_PROGRAM_ID),
    )
}

/// The layout of the swap instruction's payload: 24 bytes, of which the
/// first eight are the first eight of the digest of the method's name, the
/// next eight the amount paid and the last eight the least amount accepted.
pub open spec fn swap_payload_layout(data: Seq<u8>, buy_amount: u64, min_amount_out: u64) -> bool {
    &&& data.len() == 24
    &&& data.subrange(0, 8) == sdk::sha256(SWAP_METHOD@).subrange(0, 8)
    &&& data.subrange(8, 16) == u64_le_bytes(buy_amount)
    &&& data.subrange(16, 24) == u64_le_bytes(min_amount_out)
}

/// The payload of the swap instruction.
fn swap_payload(buy_amount: u64, min_amount_out: u64) -> (r: Vec<u8>)
    ensures
        r@ == swap_discriminator() + u64_le_bytes(buy_amount) + u64_le_bytes(min_amount_out),
        swap_discriminator().len() == 8,
        swap_payload_layout(r@, buy_amount, min_amount_out),
{
    let digest = sdk::hash(&SWAP_METHOD);
    let mut data: Vec<u8> = Vec::new();
    let mut i: usize = 0;
    while i < 8
        invariant
            i <= 8,
            digest@ == sdk::sha256(SWAP_METHOD@),
            data@ == digest@.subrange(0, i as int),
        decreases 8 - i,
    {
        data.push(digest[i]);
        assert(data@ =~= digest@.subrange(0, i + 1));
        i += 1;
    }
    assert(data@ == swap_discriminator());
    write_u64(&mut data, buy_amount);
    write_u64(&mut data, min_amount_out);
    assert(data@.subrange(0, 8) =~= swap_discriminator());
    assert(data@.subrange(8, 16) =~= u64_le_bytes(buy_amount));
    assert(data@.subrange(16, 24) =~= u64_le_bytes(min_amount_out));
    data
}

/// The instructions are few and small: between one and four, each with at
/// most 15 accounts and at most 24 payload bytes.
pub open spec fn few_and_small(instructions: Seq<InstructionView>) -> bool {
    &&& 1 <= instructions.len() <= 4
    &&& forall|k: int|
        0 <= k < instructions.len() ==> (#[trigger] instructions[k]).accounts.len() <= 15
            && instructions[k].data.len() <= 24
}

/// The last of the instructions is the swap: it calls the pool program with
/// a payload in the swap layout.
pub open spec fn ends_with_swap(
    instructions: Seq<InstructionView>,
    buy_amount: u64,
    min_amount_out: u64,
) -> bool {
    &&& instructions.len() >= 1
    &&& instructions.last().program_id == (Address { bytes: METEORA_PROGRAM_ID })
    &&& instructions.last().accounts.len() == 15
    &&& swap_payload_layout(instructions.last().data, buy_amount, min_amount_out)
}

/// The instructions of the buy transaction of a route, in order. The last
/// one is the swap, whose payload has 24 bytes.
pub fn swap_instructions(tx_config: &TransactionConfig, rpc_type: &RpcType, swap_data: SwapData) -> (r:
    Result<Vec<ResolvedInstruction>, Error>)
    ensures
        match r {
            Ok(instructions) => tx_config.planned_instructions(*rpc_type, swap_data) == Ok::<
                _,
                Error,
            >(instruction_views(instructions@)),
            Err(e) => tx_config.planned_instructions(*rpc_type, swap_data) == Err::<
                Seq<InstructionView>,
                _,
            >(e),
        },
        r matches Ok(instructions) ==> {
            &&& few_and_small(instruction_views(instructions@))
            &&& ends_with_swap(
                instruction_views(instructions@),
                tx_config.buy_amount,
                tx_config.min_amount_out,
            )
        },
{
    let owner = tx_config.keypair.pubkey();
    let wsol = Address::new(WSOL_ACCOUNT_ID);
    let a_is_native = swap_data.token_a_mint.equals(&wsol);
    let bought = if a_is_native {
        swap_data.token_b_mint
    } else {
        swap_data.token_a_mint
    };
    let fee = if a_is_native {
        swap_data.protocol_token_a_fee
    } else {
        swap_data.protocol_token_b_fee
    };
    let user_source_token = match get_associated_token_address(&owner, &wsol) {
        Some(a) => a,
        None => {
            return Err(Error::NoDerivedAddress);
        },
    };
    let user_destination_token = match get_associated_token_address(&owner, &bought) {
        Some(a) => a,
        None => {
            return Err(Error::NoDerivedAddress);
        },
    };
    let mut instructions: Vec<ResolvedInstruction> = Vec::new();
    let ghost mut planned: Seq<InstructionView> = Seq::empty();
    assert(instruction_views(instructions@) =~= planned);
    if tx_config.compute_unit_limit > 0 {
        let ix = sdk::set_compute_unit_limit(tx_config.compute_unit_limit);
        proof {
            planned = planned.push(ix@);
        }
        instructions.push(ix);
        assert(instruction_views(instructions@) =~= planned);
    }
    if tx_config.compute_unit_price > 0 {
        let ix = sdk::set_compute_unit_price(tx_config.compute_unit_price);
        proof {
            planned = planned.push(ix@);
        }
        instructions.push(ix);
        assert(instruction_views(instructions@) =~= planned);
    }
    if tx_config.tip > 0 {
        match tip_account(rpc_type) {
            Some(to) => {
                let ix = sdk::transfer(&owner, &to, tx_config.tip);
                proof {
                    planned = planned.push(ix@);
                }
                instructions.push(ix);
                assert(instruction_views(instructions@) =~= planned);
            },
            None => {},
        }
    }
    assert(planned =~= budget_instructions(
        tx_config.compute_unit_limit,
        tx_config.compute_unit_price,
        tx_config.tip,
        *rpc_type,
        owner,
    ));
    let mut accounts: Vec<AccountMeta> = Vec::new();
    accounts.push(AccountMeta::new_readonly(swap_data.pool, false));
    accounts.push(AccountMeta::new(user_source_token, false));
    accounts.push(AccountMeta::new(user_destination_token, false));
    accounts.push(AccountMeta::new(swap_data.a_vault, false));
    accounts.push(AccountMeta::new(swap_data.b_vault, false));
    accounts.push(AccountMeta::new(swap_data.a_token_vault, false));
    accounts.push(AccountMeta::new(swap_data.b_token_vault, false));
    accounts.push(AccountMeta::new(swap_data.a_vault_lp_mint, false));
    accounts.push(AccountMeta::new(swap_data.b_vault_lp_mint, false));
    accounts.push(AccountMeta::new(swap_data.a_vault_lp, false));
    accounts.push(AccountMeta::new(swap_data.b_vault_lp, false));
    accounts.push(AccountMeta::new(fee, false));
    accounts.push(AccountMeta::new_readonly(owner, false));
    accounts.push(AccountMeta::new_readonly(swap_data.vault_programm, false));
    accounts.push(AccountMeta::new_readonly(Address::new(TOKEN_PROGRAM_ID), false));
    let swap = ResolvedInstruction {
        program_id: Address::new(METEORA_PROGRAM_ID),
        accounts,
        data: swap_payload(tx_config.buy_amount, tx_config.min_amount_out),
    };
    assert(swap@.accounts =~= swap_instruction(
        tx_config.buy_amount,
        tx_config.min_amount_out,
        owner,
        swap_data,
        user_source_token,
        user_destination_token,
    ).accounts);
    assert(forall|k: int|
        0 <= k < planned.len() ==> (#[trigger] planned[k]).accounts.len() <= 2 && planned[k].data.len()
            <= 12);
    assert(swap@.accounts.len() == 15);
    proof {
        planned = planned.push(swap@);
    }
    instructions.push(swap);
    assert(instruction_views(instructions@) =~= planned);
    assert(planned.last() == swap@);
    Ok(instructions)
}

/// The last instruction of the message is the swap: its program index
/// names the pool program, it lists 15 accounts, and its payload is in the
/// swap layout.
pub open spec fn carries_swap(
    message: crate::message::V0MessageView,
    buy_amount: u64,
    min_amount_out: u64,
) -> bool {
    &&& message.instructions.len() >= 1
    &&& message.instructions.last().program_id_index < message.account_keys.len()
    &&& message.account_keys[message.instructions.last().program_id_index as int] == (Address {
        bytes: METEORA_PROGRAM_ID,
    })
    &&& message.instructions.last().accounts.len() == 15
    &&& swap_payload_layout(message.instructions.last().data, buy_amount, min_amount_out)
}

/// Builds and signs the buy transaction of a route.
///
/// The transaction holds the planned instructions, is paid and signed by the
/// configured key, and is bound to `recent_blockhash`. It fails where no
/// token account can be derived for the owner, where the instructions do not
/// compile into a message, and where the message cannot be signed.
pub fn build_transaction_with_config(
    tx_config: &TransactionConfig,
    rpc_type: &RpcType,
    recent_blockhash: Blockhash,
    swap_data: SwapData,
) -> (r: Result<VersionedTransaction, Error>)
    ensures
        match r {
            Ok(transaction) => transaction.v0_view() matches Some(signed)
                && tx_config.planned_transaction(*rpc_type, recent_blockhash, swap_data) == Ok::<
                _,
                Error,
            >(signed),
            Err(e) => tx_config.planned_transaction(*rpc_type, recent_blockhash, swap_data)
                == Err::<SignedV0View, _>(e),
        },
        r matches Ok(transaction) ==> {
            &&& transaction.v0_view() matches Some(signed)
            &&& tx_config.planned_instructions(*rpc_type, swap_data) matches Ok(planned)
            &&& signed.signatures.len() == 1
            &&& sdk::signed_by(signed.message, tx_config.keypair.secret_bytes())
            &&& sdk::compiles_to(
                tx_config.keypair.address(),
                planned,
                recent_blockhash,
                signed.message,
            )
            &&& few_and_small(planned)
            &&& ends_with_swap(planned, tx_config.buy_amount, tx_config.min_amount_out)
            &&& carries_swap(signed.message, tx_config.buy_amount, tx_config.min_amount_out)
        },
{
    let owner = tx_config.keypair.pubkey();
    let instructions = match swap_instructions(tx_config, rpc_type, swap_data) {
        Ok(instructions) => instructions,
        Err(e) => {
            return Err(e);
        },
    };
    let message = match sdk::try_compile(&owner, &instructions, &recent_blockhash) {
        Some(message) => message,
        None => {
            return Err(Error::CompileFailed);
        },
    };
    proof {
        let planned = instruction_views(instructions@);
        assert forall|k: int| 0 <= k < message@.instructions.len() implies (
        #[trigger] message@.instructions[k]).accounts.len() <= sdk::MAX_LIST_LEN
            && message@.instructions[k].data.len() <= sdk::MAX_LIST_LEN by {
            assert(sdk::names(message@.account_keys, message@.instructions[k], planned[k]));
        }
        assert(sdk::writable_lists(message@));
        let last = planned.len() - 1;
        assert(sdk::names(message@.account_keys, message@.instructions[last], planned[last]));
    }
    let signatures = match sdk::try_sign(&message, tx_config.keypair.secret()) {
        Some(signatures) => signatures,
        None => {
            return Err(Error::SigningFailed);
        },
    };
    Ok(VersionedTransaction { signatures, message: VersionedMessage::V0(message) })
}

/// The largest transaction text that the encoders are asked for.
pub const MAX_WIRE_LEN: usize = usize::MAX / 2;

/// The bytes that a signed transaction travels as. A transaction that cannot
/// be written, or whose bytes are too many to encode as text, has none.
pub open spec fn wire_bytes(signed: SignedV0View) -> Result<Seq<u8>, Error> {
    match sdk::transaction_bytes(signed) {
        Some(bytes) if bytes.len() <= MAX_WIRE_LEN => Ok(bytes),
        _ => Err(Error::SerializeFailed),
    }
}

impl TransactionConfig {
    /// The bytes that the signed transaction of a route travels as.
    pub open spec fn planned_wire(
        &self,
        rpc_type: RpcType,
        recent_blockhash: Blockhash,
        swap_data: SwapData,
    ) -> Result<Seq<u8>, Error> {
        match self.planned_transaction(rpc_type, recent_blockhash, swap_data) {
            Ok(signed) => wire_bytes(signed),
            Err(e) => Err(e),
        }
    }
}

/// Writes a signed transaction as the bytes it travels as.
///
/// It fails on a transaction whose message is not of version 0, which this
/// library never builds, as on one that cannot be written.
pub fn serialize_transaction(transaction: &VersionedTransaction) -> (r: Result<Vec<u8>, Error>)
    ensures
        match r {
            Ok(bytes) => transaction.v0_view() matches Some(signed) && wire_bytes(signed) == Ok::<
                _,
                Error,
            >(bytes@),
            Err(e) => e == Error::SerializeFailed && (transaction.v0_view() matches Some(signed)
                ==> wire_bytes(signed) is Err),
        },
{
    match &transaction.message {
        VersionedMessage::V0(message) => {
            match sdk::serialize_transaction(&transaction.signatures, message) {
                Some(bytes) => {
                    if bytes.len() <= MAX_WIRE_LEN {
                        Ok(bytes)
                    } else {
                        Err(Error::SerializeFailed)
                    }
                },
                None => Err(Error::SerializeFailed),
            }
        },
        VersionedMessage::Legacy(_) => Err(Error::SerializeFailed),
    }
}

/// Builds, signs and writes the buy transaction of a route.
pub fn build_wire(
    tx_config: &TransactionConfig,
    rpc_type: &RpcType,
    recent_blockhash: Blockhash,
    swap_data: SwapData,
) -> (r: Result<Vec<u8>, Error>)
    ensures
        r is Ok ==> r->Ok_0@.len() <= MAX_WIRE_LEN,
        match r {
            Ok(bytes) => tx_config.planned_wire(*rpc_type, recent_blockhash, swap_data) == Ok::<
                _,
                Error,
            >(bytes@),
            Err(e) => tx_config.planned_wire(*rpc_type, recent_blockhash, swap_data) == Err::<
                Seq<u8>,
                _,
            >(e),
        },
{
    match build_transaction_with_config(tx_config, rpc_type, recent_blockhash, swap_data) {
        Ok(transaction) => serialize_transaction(&transaction),
        Err(e) => Err(e),
    }
}

/// Where the limit is not configured, the price and the tip are, and the
/// route takes tips, the transaction's instructions are exactly the
/// compute-unit price, the tip and the swap, in this order.
pub proof fn lemma_price_tip_swap(
    tx_config: TransactionConfig,
    rpc_type: RpcType,
    swap_data: SwapData,
)
    requires
        tx_config.compute_unit_limit == 0,
        tx_config.compute_unit_price > 0,
        tx_config.tip > 0,
        tip_address(rpc_type) is Some,
        tx_config.planned_instructions(rpc_type, swap_data) is Ok,
    ensures
        ({
            let owner = tx_config.keypair.address();
            let planned = tx_config.planned_instructions(rpc_type, swap_data)->Ok_0;
            &&& planned.len() == 3
            &&& planned[0] == price_instruction(tx_config.compute_unit_price)
            &&& planned[1] == tip_instruction(owner, tip_address(rpc_type)->Some_0, tx_config.tip)
            &&& planned[2].program_id == (Address { bytes: METEORA_PROGRAM_ID })
            &&& planned[2] == swap_instruction(
                tx_config.buy_amount,
                tx_config.min_amount_out,
                owner,
                swap_data,
                token_account(owner, Address { bytes: WSOL_ACCOUNT_ID })->Some_0,
                token_account(owner, bought_mint(swap_data))->Some_0,
            )
        }),
{
}

/// Two instructions call the same program on the same accounts, in order,
/// with the same payload. The flags of the accounts are not compared.
pub open spec fn same_call(a: InstructionView, b: InstructionView) -> bool {
    &&& a.program_id == b.program_id
    &&& a.data == b.data
    &&& a.accounts.len() == b.accounts.len()
    &&& forall|j: int|
        0 <= j < a.accounts.len() ==> (#[trigger] a.accounts[j]).pubkey == b.accounts[j].pubkey
}

/// Resolving a compiled message gives back the calls that it was compiled
/// from: the same programs on the same accounts with the same payloads, in
/// the same order, whatever addresses the metadata reports as loaded.
pub proof fn lemma_compiled_message_resolves(
    message: V0Message,
    meta: TransactionStatusMeta,
    payer: Address,
    instructions: Seq<InstructionView>,
    recent_blockhash: Blockhash,
)
    requires
        sdk::compiles_to(payer, instructions, recent_blockhash, message@),
    ensures
        resolution(meta, VersionedMessage::V0(message)) matches Ok(resolved) && {
            &&& resolved.len() == instructions.len()
            &&& forall|k: int|
                0 <= k < instructions.len() ==> same_call(#[trigger] resolved[k], instructions[k])
        },
{
    let t = key_table(meta, VersionedMessage::V0(message));
    let keys = message@.account_keys;
    assert(t.static_keys == keys);
    assert(t.instructions == message@.instructions);
    assert forall|k: int| 0 <= k < t.instructions.len() implies t.resolvable(
        #[trigger] t.instructions[k],
    ) && same_call(t.resolve(t.instructions[k]), instructions[k]) by {
        let c = t.instructions[k];
        assert(sdk::names(keys, c, instructions[k]));
        assert(t.keys()[c.program_id_index as int] == keys[c.program_id_index as int]);
        assert forall|j: int| 0 <= j < c.accounts.len() implies (#[trigger] c.accounts[j])
            < t.keys().len() by {}
        lemma_resolve_in_range(t, c.accounts);
        let resolved = t.resolve(c);
        assert forall|j: int| 0 <= j < resolved.accounts.len() implies (
        #[trigger] resolved.accounts[j]).pubkey == instructions[k].accounts[j].pubkey by {
            assert(c.accounts[j] < keys.len());
            assert(t.keys()[c.accounts[j] as int] == keys[c.accounts[j] as int]);
            assert(t.resolve_account(c.accounts[j]) == Some(resolved.accounts[j]));
        }
    }
    assert(t.all_resolvable());
    assert forall|k: int| 0 <= k < instructions.len() implies same_call(
        #[trigger] t.resolved()[k],
        instructions[k],
    ) by {
        assert(t.resolved()[k] == t.resolve(t.instructions[k]));
    }
}

/// The transaction that is built for a route resolves to the instructions
/// that were planned for it.
pub proof fn lemma_built_transaction_resolves(
    tx_config: TransactionConfig,
    rpc_type: RpcType,
    recent_blockhash: Blockhash,
    swap_data: SwapData,
    transaction: VersionedTransaction,
    meta: TransactionStatusMeta,
)
    requires
        transaction.v0_view() matches Some(signed) && sdk::compiles_to(
            tx_config.keypair.address(),
            tx_config.planned_instructions(rpc_type, swap_data)->Ok_0,
            recent_blockhash,
            signed.message,
        ),
    ensures
        resolution(meta, transaction.message) matches Ok(resolved) && {
            let planned = tx_config.planned_instructions(rpc_type, swap_data)->Ok_0;
            &&& resolved.len() == planned.len()
            &&& forall|k: int| 0 <= k < planned.len() ==> same_call(#[trigger] resolved[k], planned[k])
        },
{
    match transaction.message {
        VersionedMessage::V0(message) => {
            lemma_compiled_message_resolves(
                message,
                meta,
                tx_config.keypair.address(),
                tx_config.planned_instructions(rpc_type, swap_data)->Ok_0,
                recent_blockhash,
            );
        },
        VersionedMessage::Legacy(_) => {},
    }
}

} // verus!
