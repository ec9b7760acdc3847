//! Recognising the creation of a token on the bonding-curve program, and
//! reacting to the first one.

use vstd::prelude::*;
use vstd::slice::slice_subrange;
use crate::error::Error;
use crate::extract::{extract_instructions, resolution};
use crate::instruction::{instruction_views, AccountMeta, InstructionView, ResolvedInstruction};
use crate::keys::{Address, Signature};
use crate::latch::{react, Reaction, TriggerLatch};
use crate::layout::{read_text, text_at, text_size};
use crate::message::{TransactionStatusMeta, VersionedTransaction};
use crate::tx_senders::constants::PUMPFUN_PROGRAM_ID;

verus! {

/// The first eight payload bytes of the instruction that creates a token.
pub const CREATE_IX_DISC: [u8; 8] = [24, 30, 200, 40, 5, 28, 7, 119];

pub const IX_DISCRIMINATOR_SIZE: usize = 8;

/// Where the token-creation instruction lists each account. The positions
/// belong to the bonding-curve program's interface.
pub const TOKEN_AT: usize = 0;

pub const BONDING_CURVE_AT: usize = 2;

pub const ASSOCIATED_BONDING_CURVE_AT: usize = 3;

/// The arguments of the token-creation instruction.
#[derive(Clone, Debug, PartialEq, Eq)]
pub struct CreateIxData {
    pub name: String,
    pub symbol: String,
    pub uri: String,
}

impl CreateIxData {
    /// The three texts that `b` starts with, one after the other, if it
    /// starts with three. Bytes after them are not looked at.
    pub open spec fn parse(b: Seq<u8>) -> Option<(Seq<char>, Seq<char>, Seq<char>)> {
        match (text_at(b), text_size(b)) {
            (Some(name), Some(first)) => match (text_at(b.skip(first)), text_size(b.skip(first))) {
                (Some(symbol), Some(second)) => match text_at(b.skip(first + second)) {
                    Some(uri) => Some((name, symbol, uri)),
                    None => None,
                },
                _ => None,
            },
            _ => None,
        }
    }

    /// Reads the arguments that `data` starts with.
    pub fn deserialize(data: &[u8]) -> (r: Option<CreateIxData>)
        ensures
            match r {
                Some(read) => Self::parse(data@) == Some((read.name@, read.symbol@, read.uri@)),
                None => Self::parse(data@) is None,
            },
    {
        let ghost b = data@;
        assert(data@.skip(0) =~= data@);
        let (name, after_name) = match read_text(data, 0) {
            Some(read) => read,
            None => {
                return None;
            },
        };
        assert(data@.skip(after_name as int) =~= b.skip(after_name as int));
        let (symbol, after_symbol) = match read_text(data, after_name) {
            Some(read) => read,
            None => {
                return None;
            },
        };
        assert(data@.skip(after_symbol as int) =~= b.skip(after_symbol as int));
        match read_text(data, after_symbol) {
            Some((uri, _)) => Some(CreateIxData { name, symbol, uri }),
            None => None,
        }
    }
}

/// The accounts of a new token, each under the role it plays.
#[derive(Clone, Copy, Debug, PartialEq, Eq)]
pub struct BuyData {
    pub token_address: Address,
    pub bonding_curve: Address,
    pub associated_bonding_curve: Address,
}

impl BuyData {
    /// The accounts that a token-creation instruction lists, each taken
    /// from its position.
    pub open spec fn at_positions(accounts: Seq<AccountMeta>) -> BuyData
        recommends
            accounts.len() > ASSOCIATED_BONDING_CURVE_AT,
    {
        BuyData {
            token_address: accounts[TOKEN_AT as int].pubkey,
            bonding_curve: accounts[BONDING_CURVE_AT as int].pubkey,
            associated_bonding_curve: accounts[ASSOCIATED_BONDING_CURVE_AT as int].pubkey,
        }
    }
}

/// The payload starts with the token-creation discriminator.
pub open spec fn carries_discriminator(data: Seq<u8>) -> bool {
    data.len() >= IX_DISCRIMINATOR_SIZE && data.subrange(0, IX_DISCRIMINATOR_SIZE as int)
        == CREATE_IX_DISC@
}

/// What one instruction says about a new token.
///
/// An instruction of another program, or with fewer than eight payload bytes,
/// or with another discriminator, says nothing. After the discriminator the
/// payload must hold the three texts of the arguments, and the accounts must
/// reach the positions that are read.
pub open spec fn decode_instruction(ix: InstructionView, target: Address) -> Result<
    Option<BuyData>,
    Error,
> {
    if ix.program_id != target || !carries_discriminator(ix.data) {
        Ok(None)
    } else if CreateIxData::parse(ix.data.skip(IX_DISCRIMINATOR_SIZE as int)) is None {
        Err(Error::MalformedPayload)
    } else if ix.accounts.len() <= ASSOCIATED_BONDING_CURVE_AT {
        Err(Error::MissingAccount)
    } else {
        Ok(Some(BuyData::at_positions(ix.accounts)))
    }
}

/// What a list of instructions says about a new token: what its first
/// instruction that says anything says, be it a token or a failure.
pub open spec fn decode_first(instructions: Seq<InstructionView>, target: Address) -> Result<
    Option<BuyData>,
    Error,
>
    decreases instructions.len(),
{
    if instructions.len() == 0 {
        Ok(None)
    } else {
        match decode_instruction(instructions[0], target) {
            Ok(None) => decode_first(instructions.drop_first(), target),
            said => said,
        }
    }
}

/// Whether `data` starts with the token-creation discriminator.
fn has_discriminator(data: &Vec<u8>) -> (r: bool)
    ensures
        r == carries_discriminator(data@),
{
    if data.len() < IX_DISCRIMINATOR_SIZE {
        return false;
    }
    let ghost head = data@.subrange(0, IX_DISCRIMINATOR_SIZE as int);
    let disc = CREATE_IX_DISC;
    let mut i: usize = 0;
    while i < IX_DISCRIMINATOR_SIZE
        invariant
            i <= IX_DISCRIMINATOR_SIZE <= data@.len(),
            head == data@.subrange(0, IX_DISCRIMINATOR_SIZE as int),
            disc == CREATE_IX_DISC,
            forall|j: int| 0 <= j < i ==> head[j] == disc@[j],
        decreases IX_DISCRIMINATOR_SIZE - i,
    {
        if data[i] != disc[i] {
            assert(head[i as int] != disc@[i as int]);
            return false;
        }
        i += 1;
    }
    assert(head =~= disc@);
    true
}

/// Decodes one instruction.
fn decode_one(ix: &ResolvedInstruction, target: &Address) -> (r: Result<Option<BuyData>, Error>)
    ensures
        r == decode_instruction(ix@, *target),
{
    if !ix.program_id.equals(target) || !has_discriminator(&ix.data) {
        return Ok(None);
    }
    let rest = slice_subrange(ix.data.as_slice(), IX_DISCRIMINATOR_SIZE, ix.data.len());
    assert(rest@ =~= ix.data@.skip(IX_DISCRIMINATOR_SIZE as int));
    if CreateIxData::deserialize(rest).is_none() {
        return Err(Error::MalformedPayload);
    }
    let accounts = &ix.accounts;
    if accounts.len() <= ASSOCIATED_BONDING_CURVE_AT {
        return Err(Error::MissingAccount);
    }
    Ok(
        Some(
            BuyData {
                token_address: accounts[TOKEN_AT].pubkey,
                bonding_curve: accounts[BONDING_CURVE_AT].pubkey,
                associated_bonding_curve: accounts[ASSOCIATED_BONDING_CURVE_AT].pubkey,
            },
        ),
    )
}

/// Looks for the creation of a token among resolved instructions.
///
/// Returns the accounts of the first new token, `None` if no instruction
/// creates one, and the failure of the first instruction that carries the
/// token-creation discriminator of `target_program_id` without the payload
/// or the accounts that go with it, if that instruction comes before any
/// token.
pub fn try_decode(instructions: &Vec<ResolvedInstruction>, target_program_id: &Address) -> (r:
    Result<Option<BuyData>, Error>)
    ensures
        r == decode_first(instruction_views(instructions@), *target_program_id),
{
    let ghost all = instruction_views(instructions@);
    let mut k: usize = 0;
    assert(all.skip(0) =~= all);
    while k < instructions.len()
        invariant
            k <= instructions.len(),
            all == instruction_views(instructions@),
            decode_first(all, *target_program_id) == decode_first(
                all.skip(k as int),
                *target_program_id,
            ),
        decreases instructions.len() - k,
    {
        let said = decode_one(&instructions[k], target_program_id);
        assert(all.skip(k as int)[0] == instructions@[k as int]@);
        assert(all.skip(k as int).drop_first() =~= all.skip(k + 1));
        match said {
            Ok(None) => {},
            _ => {
                return said;
            },
        }
        k += 1;
    }
    Ok(None)
}

/// Watches the feed for the first new token and fires once.
#[derive(Debug)]
pub struct PumpFunController {
    is_buy: TriggerLatch,
}

impl PumpFunController {
    /// The controller has fired.
    pub closed spec fn armed(&self) -> bool {
        self.is_buy.armed()
    }

    /// A controller that has not fired.
    pub fn new() -> (r: PumpFunController)
        ensures
            !r.armed(),
    {
        PumpFunController { is_buy: TriggerLatch::new() }
    }

    /// Whether the controller has fired.
    pub fn is_armed(&self) -> (r: bool)
        ensures
            r == self.armed(),
    {
        self.is_buy.is_armed()
    }

    /// What a transaction says about a new token of the bonding-curve
    /// program.
    pub open spec fn observe(
        transaction: VersionedTransaction,
        meta: TransactionStatusMeta,
    ) -> Result<Option<BuyData>, Error> {
        match resolution(meta, transaction.message) {
            Ok(instructions) => decode_first(instructions, Address { bytes: PUMPFUN_PROGRAM_ID }),
            Err(e) => Err(e),
        }
    }

    /// The controller's transition: from whether it has fired and a
    /// transaction, to whether it has fired afterwards and what is to be
    /// done.
    pub open spec fn step(
        armed: bool,
        transaction: VersionedTransaction,
        meta: TransactionStatusMeta,
    ) -> (bool, Result<Reaction<BuyData>, Error>) {
        react(
            armed,
            Self::observe(transaction, meta),
            transaction.message.spec_recent_blockhash(),
        )
    }

    /// Takes one transaction of the feed and says what is to be done.
    ///
    /// The transaction is resolved and decoded whether or not the controller
    /// has fired. The signature, the vote flag and the slot identify the
    /// transaction to the caller and decide nothing.
    pub fn transaction_handler(
        &mut self,
        signature: Signature,
        transaction: VersionedTransaction,
        meta: TransactionStatusMeta,
        is_vote: bool,
        slot: u64,
    ) -> (r: Result<Reaction<BuyData>, Error>)
        ensures
            (final(self).armed(), r) == Self::step(old(self).armed(), transaction, meta),
    {
        let recent_blockhash = transaction.message.recent_blockhash();
        let instructions = match extract_instructions(meta, transaction) {
            Ok(instructions) => instructions,
            Err(e) => {
                return Err(e);
            },
        };
        match try_decode(&instructions, &Address::new(PUMPFUN_PROGRAM_ID)) {
            Err(e) => Err(e),
            Ok(None) => Ok(Reaction::Ignore),
            Ok(Some(found)) => {
                if self.is_buy.arm() {
                    Ok(Reaction::Dispatch { recent_blockhash, found })
                } else {
                    Ok(Reaction::Observed(found))
                }
            },
        }
    }
}

} // verus!
