//! Recognising the creation of a constant-product pool that trades the
//! wrapped native token, and reacting to the first one.

use vstd::prelude::*;
use vstd::slice::slice_subrange;
use vstd::string::*;
use crate::error::Error;
use crate::extract::{extract_instructions, resolution};
use crate::instruction::{instruction_views, AccountMeta, InstructionView, ResolvedInstruction};
use crate::keys::{Address, Signature};
use crate::latch::{react, Reaction, TriggerLatch};
use crate::layout::{le_u64, lemma_u64_round_trip, read_u64, u64_le_bytes, write_u64};
use crate::message::{TransactionStatusMeta, VersionedTransaction};
use crate::tx_senders::constants::{
    METEORA_PROGRAM_ADDR, METEORA_PROGRAM_ID, WSOL_ACCOUNT_ADDR, WSOL_ACCOUNT_ID,
};

verus! {

/// The first eight payload bytes of the instruction that creates a pool.
pub const INITIALIZE_PERMISSIONLESS_CONSTANT_PRODUCT_POOL_WITH_CONFIG_2_DISC: [u8; 8] = [
    48, 149, 220, 130, 61, 11, 9, 178,
];

pub const IX_DISCRIMINATOR_SIZE: usize = 8;

/// Where the pool-creation instruction lists each account. The positions
/// belong to the pool program's interface.
pub const POOL_AT: usize = 0;

pub const TOKEN_A_MINT_AT: usize = 3;

pub const TOKEN_B_MINT_AT: usize = 4;

pub const A_VAULT_AT: usize = 5;

pub const B_VAULT_AT: usize = 6;

pub const A_TOKEN_VAULT_AT: usize = 7;

pub const B_TOKEN_VAULT_AT: usize = 8;

pub const A_VAULT_LP_MINT_AT: usize = 9;

pub const B_VAULT_LP_MINT_AT: usize = 10;

pub const A_VAULT_LP_AT: usize = 11;

pub const B_VAULT_LP_AT: usize = 12;

pub const PROTOCOL_TOKEN_A_FEE_AT: usize = 16;

pub const PROTOCOL_TOKEN_B_FEE_AT: usize = 17;

pub const VAULT_PROGRAM_AT: usize = 22;

/// The arguments of the pool-creation instruction: the two deposits and an
/// optional activation point.
#[allow(non_snake_case)]
#[derive(Clone, Copy, Debug, PartialEq, Eq)]
pub struct AddLiquidityIxData {
    pub tokenAAmount: u64,
    pub tokenBAmount: u64,
    pub activationPoint: Option<u64>,
}

impl AddLiquidityIxData {
    /// The layout of the arguments: two little-endian 64-bit numbers, then a
    /// byte that is 0 for no activation point, or 1 and one more such number.
    pub open spec fn bytes(self) -> Seq<u8> {
        u64_le_bytes(self.tokenAAmount) + u64_le_bytes(self.tokenBAmount) + match self.activationPoint
        {
            None => seq![0u8],
            Some(point) => seq![1u8] + u64_le_bytes(point),
        }
    }

    /// The arguments that `b` starts with, if it starts with the layout of
    /// any. Bytes after them are not looked at.
    pub open spec fn parse(b: Seq<u8>) -> Option<AddLiquidityIxData> {
        if b.len() < 17 {
            None
        } else if b[16] == 0 {
            Some(
                AddLiquidityIxData {
                    tokenAAmount: le_u64(b.subrange(0, 8)) as u64,
                    tokenBAmount: le_u64(b.subrange(8, 16)) as u64,
                    activationPoint: None,
                },
            )
        } else if b[16] == 1 && b.len() >= 25 {
            Some(
                AddLiquidityIxData {
                    tokenAAmount: le_u64(b.subrange(0, 8)) as u64,
                    tokenBAmount: le_u64(b.subrange(8, 16)) as u64,
                    activationPoint: Some(le_u64(b.subrange(17, 25)) as u64),
                },
            )
        } else {
            None
        }
    }

    /// Reads the arguments that `data` starts with.
    pub fn deserialize(data: &[u8]) -> (r: Option<AddLiquidityIxData>)
        ensures
            r == Self::parse(data@),
    {
        if data.len() < 17 {
            return None;
        }
        let a = match read_u64(data, 0) {
            Some(a) => a,
            None => { return None; },
        };
        let b = match read_u64(data, 8) {
            Some(b) => b,
            None => { return None; },
        };
        let tag = data[16];
        if tag == 0 {
            Some(AddLiquidityIxData { tokenAAmount: a, tokenBAmount: b, activationPoint: None })
        } else if tag == 1 {
            match read_u64(data, 17) {
                Some(point) => Some(
                    AddLiquidityIxData {
                        tokenAAmount: a,
                        tokenBAmount: b,
                        activationPoint: Some(point),
                    },
                ),
                None => None,
            }
        } else {
            None
        }
    }

    /// Writes the arguments in their layout.
    pub fn serialize(&self) -> (r: Vec<u8>)
        ensures
            r@ == self.bytes(),
    {
        let mut r: Vec<u8> = Vec::new();
        write_u64(&mut r, self.tokenAAmount);
        write_u64(&mut r, self.tokenBAmount);
        match self.activationPoint {
            None => {
                r.push(0);
            },
            Some(point) => {
                r.push(1);
                write_u64(&mut r, point);
            },
        }
        assert(r@ =~= self.bytes());
        r
    }
}

/// Arguments that were written in their layout are read back unchanged,
/// whatever follows them.
pub proof fn lemma_add_liquidity_round_trip(x: AddLiquidityIxData, rest: Seq<u8>)
    ensures
        AddLiquidityIxData::parse(x.bytes() + rest) == Some(x),
{
    let b = x.bytes() + rest;
    lemma_u64_round_trip(x.tokenAAmount);
    lemma_u64_round_trip(x.tokenBAmount);
    assert(b.subrange(0, 8) =~= u64_le_bytes(x.tokenAAmount));
    assert(b.subrange(8, 16) =~= u64_le_bytes(x.tokenBAmount));
    match x.activationPoint {
        None => {
            assert(b[16] == 0);
        },
        Some(point) => {
            lemma_u64_round_trip(point);
            assert(b[16] == 1);
            assert(b.subrange(17, 25) =~= u64_le_bytes(point));
        },
    }
}

/// The accounts of a new pool, each under the role it plays.
#[derive(Clone, Copy, Debug, PartialEq, Eq)]
pub struct SwapData {
    pub pool: Address,
    pub token_a_mint: Address,
    pub token_b_mint: Address,
    pub a_vault: Address,
    pub b_vault: Address,
    pub a_token_vault: Address,
    pub b_token_vault: Address,
    pub a_vault_lp_mint: Address,
    pub b_vault_lp_mint: Address,
    pub a_vault_lp: Address,
    pub b_vault_lp: Address,
    pub vault_programm: Address,
    pub protocol_token_a_fee: Address,
    pub protocol_token_b_fee: Address,
}

impl SwapData {
    pub fn new(
        pool: Address,
        token_a_mint: Address,
        token_b_mint: Address,
        a_vault: Address,
        b_vault: Address,
        a_token_vault: Address,
        b_token_vault: Address,
        a_vault_lp_mint: Address,
        b_vault_lp_mint: Address,
        a_vault_lp: Address,
        b_vault_lp: Address,
        vault_programm: Address,
        protocol_token_a_fee: Address,
        protocol_token_b_fee: Address,
    ) -> (r: SwapData)
        ensures
            r == (SwapData {
                pool,
                token_a_mint,
                token_b_mint,
                a_vault,
                b_vault,
                a_token_vault,
                b_token_vault,
                a_vault_lp_mint,
                b_vault_lp_mint,
                a_vault_lp,
                b_vault_lp,
                vault_programm,
                protocol_token_a_fee,
                protocol_token_b_fee,
            }),
    {
        SwapData {
            pool,
            token_a_mint,
            token_b_mint,
            a_vault,
            b_vault,
            a_token_vault,
            b_token_vault,
            a_vault_lp_mint,
            b_vault_lp_mint,
            a_vault_lp,
            b_vault_lp,
            vault_programm,
            protocol_token_a_fee,
            protocol_token_b_fee,
        }
    }

    /// The pool accounts that a pool-creation instruction lists, each taken
    /// from its position.
    pub open spec fn at_positions(accounts: Seq<AccountMeta>) -> SwapData
        recommends
            accounts.len() > VAULT_PROGRAM_AT,
    {
        SwapData {
            pool: accounts[POOL_AT as int].pubkey,
            token_a_mint: accounts[TOKEN_A_MINT_AT as int].pubkey,
            token_b_mint: accounts[TOKEN_B_MINT_AT as int].pubkey,
            a_vault: accounts[A_VAULT_AT as int].pubkey,
            b_vault: accounts[B_VAULT_AT as int].pubkey,
            a_token_vault: accounts[A_TOKEN_VAULT_AT as int].pubkey,
            b_token_vault: accounts[B_TOKEN_VAULT_AT as int].pubkey,
            a_vault_lp_mint: accounts[A_VAULT_LP_MINT_AT as int].pubkey,
            b_vault_lp_mint: accounts[B_VAULT_LP_MINT_AT as int].pubkey,
            a_vault_lp: accounts[A_VAULT_LP_AT as int].pubkey,
            b_vault_lp: accounts[B_VAULT_LP_AT as int].pubkey,
            vault_programm: accounts[VAULT_PROGRAM_AT as int].pubkey,
            protocol_token_a_fee: accounts[PROTOCOL_TOKEN_A_FEE_AT as int].pubkey,
            protocol_token_b_fee: accounts[PROTOCOL_TOKEN_B_FEE_AT as int].pubkey,
        }
    }
}

/// The payload starts with the pool-creation discriminator.
pub open spec fn carries_discriminator(data: Seq<u8>) -> bool {
    data.len() >= IX_DISCRIMINATOR_SIZE && data.subrange(0, IX_DISCRIMINATOR_SIZE as int)
        == INITIALIZE_PERMISSIONLESS_CONSTANT_PRODUCT_POOL_WITH_CONFIG_2_DISC@
}

/// One of the two mints that the instruction lists is the wrapped native
/// token's.
pub open spec fn trades_native(accounts: Seq<AccountMeta>) -> bool
    recommends
        accounts.len() > TOKEN_B_MINT_AT,
{
    accounts[TOKEN_A_MINT_AT as int].pubkey == (Address { bytes: WSOL_ACCOUNT_ID })
        || accounts[TOKEN_B_MINT_AT as int].pubkey == (Address { bytes: WSOL_ACCOUNT_ID })
}

/// What one instruction says about a new pool.
///
/// An instruction of another program, or with fewer than eight payload bytes,
/// or with another discriminator, says nothing. After the discriminator the
/// payload must follow the layout of the pool-creation arguments, and the
/// accounts must reach the positions that are read: first the two mints, and
/// if one of them is the wrapped native token's, all the others.
pub open spec fn decode_instruction(ix: InstructionView, target: Address) -> Result<
    Option<SwapData>,
    Error,
> {
    if ix.program_id != target || !carries_discriminator(ix.data) {
        Ok(None)
    } else if AddLiquidityIxData::parse(ix.data.skip(IX_DISCRIMINATOR_SIZE as int)) is None {
        Err(Error::MalformedPayload)
    } else if ix.accounts.len() <= TOKEN_B_MINT_AT {
        Err(Error::MissingAccount)
    } else if !trades_native(ix.accounts) {
        Ok(None)
    } else if ix.accounts.len() <= VAULT_PROGRAM_AT {
        Err(Error::MissingAccount)
    } else {
        Ok(Some(SwapData::at_positions(ix.accounts)))
    }
}

/// What a list of instructions says about a new pool: what its first
/// instruction that says anything says, be it a pool or a failure.
pub open spec fn decode_first(instructions: Seq<InstructionView>, target: Address) -> Result<
    Option<SwapData>,
    Error,
>
    decreases instructions.len(),
{
    if instructions.len() == 0 {
        Ok(None)
    } else {
        match decode_instruction(instructions[0], target) {
            Ok(None) => decode_first(instructions.drop_first(), target),
            said => said,
        }
    }
}

/// Whether `data` starts with the pool-creation discriminator.
fn has_discriminator(data: &Vec<u8>) -> (r: bool)
    ensures
        r == carries_discriminator(data@),
{
    if data.len() < IX_DISCRIMINATOR_SIZE {
        return false;
    }
    let ghost head = data@.subrange(0, IX_DISCRIMINATOR_SIZE as int);
    let disc = INITIALIZE_PERMISSIONLESS_CONSTANT_PRODUCT_POOL_WITH_CONFIG_2_DISC;
    let mut i: usize = 0;
    while i < IX_DISCRIMINATOR_SIZE
        invariant
            i <= IX_DISCRIMINATOR_SIZE <= data@.len(),
            head == data@.subrange(0, IX_DISCRIMINATOR_SIZE as int),
            disc == INITIALIZE_PERMISSIONLESS_CONSTANT_PRODUCT_POOL_WITH_CONFIG_2_DISC,
            forall|j: int| 0 <= j < i ==> head[j] == disc@[j],
        decreases IX_DISCRIMINATOR_SIZE - i,
    {
        if data[i] != disc[i] {
            assert(head[i as int] != disc@[i as int]);
            return false;
        }
        i += 1;
    }
    assert(head =~= disc@);
    true
}

/// Decodes one instruction.
fn decode_one(ix: &ResolvedInstruction, target: &Address) -> (r: Result<Option<SwapData>, Error>)
    ensures
        r == decode_instruction(ix@, *target),
{
    if !ix.program_id.equals(target) || !has_discriminator(&ix.data) {
        return Ok(None);
    }
    let rest = slice_subrange(ix.data.as_slice(), IX_DISCRIMINATOR_SIZE, ix.data.len());
    assert(rest@ =~= ix.data@.skip(IX_DISCRIMINATOR_SIZE as int));
    if AddLiquidityIxData::deserialize(rest).is_none() {
        return Err(Error::MalformedPayload);
    }
    let accounts = &ix.accounts;
    if accounts.len() <= TOKEN_B_MINT_AT {
        return Err(Error::MissingAccount);
    }
    let wsol = Address::new(WSOL_ACCOUNT_ID);
    let token_a_mint = accounts[TOKEN_A_MINT_AT].pubkey;
    let token_b_mint = accounts[TOKEN_B_MINT_AT].pubkey;
    if !token_a_mint.equals(&wsol) && !token_b_mint.equals(&wsol) {
        return Ok(None);
    }
    if accounts.len() <= VAULT_PROGRAM_AT {
        return Err(Error::MissingAccount);
    }
    Ok(
        Some(
            SwapData::new(
                accounts[POOL_AT].pubkey,
                token_a_mint,
                token_b_mint,
                accounts[A_VAULT_AT].pubkey,
                accounts[B_VAULT_AT].pubkey,
                accounts[A_TOKEN_VAULT_AT].pubkey,
                accounts[B_TOKEN_VAULT_AT].pubkey,
                accounts[A_VAULT_LP_MINT_AT].pubkey,
                accounts[B_VAULT_LP_MINT_AT].pubkey,
                accounts[A_VAULT_LP_AT].pubkey,
                accounts[B_VAULT_LP_AT].pubkey,
                accounts[VAULT_PROGRAM_AT].pubkey,
                accounts[PROTOCOL_TOKEN_A_FEE_AT].pubkey,
                accounts[PROTOCOL_TOKEN_B_FEE_AT].pubkey,
            ),
        ),
    )
}

/// Looks for the creation of a pool that trades the wrapped native token
/// among resolved instructions.
///
/// Returns the accounts of the first such pool, `None` if no instruction
/// creates one, and the failure of the first instruction that carries the
/// pool-creation discriminator of `target_program_id` without the payload or
/// the accounts that go with it, if that instruction comes before any pool.
pub fn try_decode(instructions: &Vec<ResolvedInstruction>, target_program_id: &Address) -> (r: Result<
    Option<SwapData>,
    Error,
>)
    ensures
        r == decode_first(instruction_views(instructions@), *target_program_id),
{
    let ghost all = instruction_views(instructions@);
    let mut k: usize = 0;
    assert(all.skip(0) =~= all);
    while k < instructions.len()
        invariant
            k <= instructions.len(),
            all == instruction_views(instructions@),
            decode_first(all, *target_program_id) == decode_first(
                all.skip(k as int),
                *target_program_id,
            ),
        decreases instructions.len() - k,
    {
        let said = decode_one(&instructions[k], target_program_id);
        assert(all.skip(k as int)[0] == instructions@[k as int]@);
        assert(all.skip(k as int).drop_first() =~= all.skip(k + 1));
        match said {
            Ok(None) => {},
            _ => {
                return said;
            },
        }
        k += 1;
    }
    Ok(None)
}

/// Which transactions the feed is asked for. Accounts are named in base58.
#[derive(Clone, Debug, PartialEq, Eq)]
pub struct TransactionFilter {
    /// Whether vote transactions are wanted, where that matters.
    pub vote: Option<bool>,
    /// Whether failed transactions are wanted, where that matters.
    pub failed: Option<bool>,
    /// The transaction names at least one of these accounts.
    pub account_include: Vec<String>,
    /// The transaction names none of these accounts.
    pub account_exclude: Vec<String>,
    /// The transaction names every one of these accounts.
    pub account_required: Vec<String>,
    /// The transaction has this signature, where one is asked for.
    pub signature: Option<String>,
}

/// The transactions that can create a pool of interest: neither votes nor
/// failures, naming the pool program and the wrapped native token's mint.
pub fn transaction_filter() -> (r: TransactionFilter)
    ensures
        r.vote == Some(false),
        r.failed == Some(false),
        r.account_include@.len() == 1 && r.account_include@[0]@ == METEORA_PROGRAM_ADDR@,
        r.account_exclude@.len() == 0,
        r.account_required@.len() == 1 && r.account_required@[0]@ == WSOL_ACCOUNT_ADDR@,
        r.signature is None,
{
    let mut account_include: Vec<String> = Vec::new();
    account_include.push(String::from_str(METEORA_PROGRAM_ADDR));
    let mut account_required: Vec<String> = Vec::new();
    account_required.push(String::from_str(WSOL_ACCOUNT_ADDR));
    TransactionFilter {
        vote: Some(false),
        failed: Some(false),
        account_include,
        account_exclude: Vec::new(),
        account_required,
        signature: None,
    }
}

/// Watches the feed for the first pool and fires once.
#[derive(Debug)]
pub struct MeteoraController {
    is_buy: TriggerLatch,
}

impl MeteoraController {
    /// The controller has fired.
    pub closed spec fn armed(&self) -> bool {
        self.is_buy.armed()
    }

    /// A controller that has not fired.
    pub fn new() -> (r: MeteoraController)
        ensures
            !r.armed(),
    {
        MeteoraController { is_buy: TriggerLatch::new() }
    }

    /// Whether the controller has fired.
    pub fn is_armed(&self) -> (r: bool)
        ensures
            r == self.armed(),
    {
        self.is_buy.is_armed()
    }

    /// What a transaction says about a new pool of the pool program.
    pub open spec fn observe(
        transaction: VersionedTransaction,
        meta: TransactionStatusMeta,
    ) -> Result<Option<SwapData>, Error> {
        match resolution(meta, transaction.message) {
            Ok(instructions) => decode_first(instructions, Address { bytes: METEORA_PROGRAM_ID }),
            Err(e) => Err(e),
        }
    }

    /// The controller's transition: from whether it has fired and a
    /// transaction, to whether it has fired afterwards and what is to be
    /// done.
    pub open spec fn step(
        armed: bool,
        transaction: VersionedTransaction,
        meta: TransactionStatusMeta,
    ) -> (bool, Result<Reaction<SwapData>, Error>) {
        react(
            armed,
            Self::observe(transaction, meta),
            transaction.message.spec_recent_blockhash(),
        )
    }

    /// Takes one transaction of the feed and says what is to be done.
    ///
    /// The transaction is resolved and decoded whether or not the controller
    /// has fired. The signature, the vote flag and the slot identify the
    /// transaction to the caller and decide nothing.
    pub fn transaction_handler(
        &mut self,
        signature: Signature,
        transaction: VersionedTransaction,
        meta: TransactionStatusMeta,
        is_vote: bool,
        slot: u64,
    ) -> (r: Result<Reaction<SwapData>, Error>)
        ensures
            (final(self).armed(), r) == Self::step(old(self).armed(), transaction, meta),
    {
        let recent_blockhash = transaction.message.recent_blockhash();
        let instructions = match extract_instructions(meta, transaction) {
            Ok(instructions) => instructions,
            Err(e) => {
                return Err(e);
            },
        };
        match try_decode(&instructions, &Address::new(METEORA_PROGRAM_ID)) {
            Err(e) => Err(e),
            Ok(None) => Ok(Reaction::Ignore),
            Ok(Some(swap_data)) => {
                if self.is_buy.arm() {
                    Ok(Reaction::Dispatch { recent_blockhash, found: swap_data })
                } else {
                    Ok(Reaction::Observed(swap_data))
                }
            },
        }
    }
}

/// Of two transactions that each create a pool, given in turn to a new
/// controller, the first is answered with a dispatch and the second is only
/// observed.
pub proof fn lemma_second_pool_is_observed(
    first: (VersionedTransaction, TransactionStatusMeta),
    second: (VersionedTransaction, TransactionStatusMeta),
)
    requires
        MeteoraController::observe(first.0, first.1) matches Ok(Some(_)),
        MeteoraController::observe(second.0, second.1) matches Ok(Some(_)),
    ensures
        ({
            let (armed, answer) = MeteoraController::step(false, first.0, first.1);
            let (still_armed, next) = MeteoraController::step(armed, second.0, second.1);
            &&& armed
            &&& still_armed
            &&& answer matches Ok(Reaction::Dispatch { .. })
            &&& next matches Ok(Reaction::Observed(_))
        }),
{
}

/// A payload shorter than the discriminator does not carry it, and an
/// instruction with such a payload says nothing: neither a pool nor a
/// failure.
pub proof fn lemma_short_payload_says_nothing(ix: InstructionView, target: Address)
    requires
        ix.data.len() < IX_DISCRIMINATOR_SIZE,
    ensures
        !carries_discriminator(ix.data),
        decode_instruction(ix, target) == Ok::<Option<SwapData>, Error>(None),
{
}

/// Instructions none of which is the pool program's with the pool-creation
/// discriminator say nothing: neither a pool nor a failure.
pub proof fn lemma_no_discriminator_no_pool(instructions: Seq<InstructionView>, target: Address)
    requires
        forall|k: int|
            0 <= k < instructions.len() ==> (#[trigger] instructions[k]).program_id != target
                || !carries_discriminator(instructions[k].data),
    ensures
        decode_first(instructions, target) == Ok::<Option<SwapData>, Error>(None),
    decreases instructions.len(),
{
    if instructions.len() > 0 {
        let rest = instructions.drop_first();
        assert forall|k: int| 0 <= k < rest.len() implies (#[trigger] rest[k]).program_id != target
            || !carries_discriminator(rest[k].data) by {
            assert(rest[k] == instructions[k + 1]);
        }
        lemma_no_discriminator_no_pool(rest, target);
    }
}

/// No pool is reported for instructions none of which lists the wrapped
/// native token's mint at either mint position.
pub proof fn lemma_no_native_mint_no_pool(instructions: Seq<InstructionView>, target: Address)
    requires
        forall|k: int|
            0 <= k < instructions.len() && (#[trigger] instructions[k]).accounts.len()
                > TOKEN_B_MINT_AT ==> !trades_native(instructions[k].accounts),
    ensures
        !(decode_first(instructions, target) matches Ok(Some(_))),
    decreases instructions.len(),
{
    if instructions.len() > 0 {
        let rest = instructions.drop_first();
        assert forall|k: int|
            0 <= k < rest.len() && (#[trigger] rest[k]).accounts.len()
                > TOKEN_B_MINT_AT implies !trades_native(rest[k].accounts) by {
            assert(rest[k] == instructions[k + 1]);
        }
        lemma_no_native_mint_no_pool(rest, target);
    }
}

} // verus!
