//! Resolved instructions: a program, its accounts with their flags, and an
//! opaque payload.

use vstd::prelude::*;
use crate::keys::Address;

verus! {

/// One account of an instruction.
#[derive(Clone, Copy, Debug, PartialEq, Eq)]
pub struct AccountMeta {
    pub pubkey: Address,
    pub is_signer: bool,
    pub is_writable: bool,
}

impl AccountMeta {
    /// A writable account.
    pub fn new(pubkey: Address, is_signer: bool) -> (r: AccountMeta)
        ensures
            r == (AccountMeta { pubkey, is_signer, is_writable: true }),
    {
        AccountMeta { pubkey, is_signer, is_writable: true }
    }

    /// A read-only account.
    pub fn new_readonly(pubkey: Address, is_signer: bool) -> (r: AccountMeta)
        ensures
            r == (AccountMeta { pubkey, is_signer, is_writable: false }),
    {
        AccountMeta { pubkey, is_signer, is_writable: false }
    }
}

/// A program invocation with every account written out.
#[derive(Clone, Debug, PartialEq, Eq)]
pub struct ResolvedInstruction {
    pub program_id: Address,
    pub accounts: Vec<AccountMeta>,
    pub data: Vec<u8>,
}

/// What a [`ResolvedInstruction`] holds, as mathematical values.
pub ghost struct InstructionView {
    pub program_id: Address,
    pub accounts: Seq<AccountMeta>,
    pub data: Seq<u8>,
}

impl View for ResolvedInstruction {
    type V = InstructionView;

    open spec fn view(&self) -> InstructionView {
        InstructionView {
            program_id: self.program_id,
            accounts: self.accounts@,
            data: self.data@,
        }
    }
}

/// The views of a list of instructions.
pub open spec fn instruction_views(s: Seq<ResolvedInstruction>) -> Seq<InstructionView> {
    s.map_values(|i: ResolvedInstruction| i@)
}

} // verus!
