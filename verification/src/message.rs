//! Transactions as the ledger feed delivers them: a compiled message whose
//! instructions refer to accounts by index, and the execution metadata that
//! records which addresses were loaded from lookup tables.

use vstd::prelude::*;
use crate::keys::{Address, Blockhash, Signature};

verus! {

/// The three counts that split a message's static keys into signers and
/// non-signers, writable and read-only.
#[derive(Clone, Copy, Debug, PartialEq, Eq)]
pub struct MessageHeader {
    pub num_required_signatures: u8,
    pub num_readonly_signed_accounts: u8,
    pub num_readonly_unsigned_accounts: u8,
}

/// An instruction whose program and accounts are indices into the message's
/// account table.
#[derive(Clone, Debug, PartialEq, Eq)]
pub struct CompiledInstruction {
    pub program_id_index: u8,
    pub accounts: Vec<u8>,
    pub data: Vec<u8>,
}

/// What a [`CompiledInstruction`] holds, as mathematical values.
pub ghost struct CompiledInstructionView {
    pub program_id_index: u8,
    pub accounts: Seq<u8>,
    pub data: Seq<u8>,
}

impl View for CompiledInstruction {
    type V = CompiledInstructionView;

    open spec fn view(&self) -> CompiledInstructionView {
        CompiledInstructionView {
            program_id_index: self.program_id_index,
            accounts: self.accounts@,
            data: self.data@,
        }
    }
}

/// The views of a list of compiled instructions.
pub open spec fn compiled_views(s: Seq<CompiledInstruction>) -> Seq<CompiledInstructionView> {
    s.map_values(|c: CompiledInstruction| c@)
}

/// A reference to entries of an on-chain address lookup table.
#[derive(Clone, Debug, PartialEq, Eq)]
pub struct MessageAddressTableLookup {
    pub account_key: Address,
    pub writable_indexes: Vec<u8>,
    pub readonly_indexes: Vec<u8>,
}

/// What a [`MessageAddressTableLookup`] holds, as mathematical values.
pub ghost struct LookupView {
    pub account_key: Address,
    pub writable_indexes: Seq<u8>,
    pub readonly_indexes: Seq<u8>,
}

impl View for MessageAddressTableLookup {
    type V = LookupView;

    open spec fn view(&self) -> LookupView {
        LookupView {
            account_key: self.account_key,
            writable_indexes: self.writable_indexes@,
            readonly_indexes: self.readonly_indexes@,
        }
    }
}

/// The views of a list of table lookups.
pub open spec fn lookup_views(s: Seq<MessageAddressTableLookup>) -> Seq<LookupView> {
    s.map_values(|l: MessageAddressTableLookup| l@)
}

/// A message in the legacy format: every account is a static key.
#[derive(Clone, Debug, PartialEq, Eq)]
pub struct LegacyMessage {
    pub header: MessageHeader,
    pub account_keys: Vec<Address>,
    pub recent_blockhash: Blockhash,
    pub instructions: Vec<CompiledInstruction>,
}

/// A version-0 message: static keys, and lookups whose addresses are known
/// only once the transaction has run.
#[derive(Clone, Debug, PartialEq, Eq)]
pub struct V0Message {
    pub header: MessageHeader,
    pub account_keys: Vec<Address>,
    pub recent_blockhash: Blockhash,
    pub instructions: Vec<CompiledInstruction>,
    pub address_table_lookups: Vec<MessageAddressTableLookup>,
}

/// What a [`V0Message`] holds, as mathematical values.
pub ghost struct V0MessageView {
    pub header: MessageHeader,
    pub account_keys: Seq<Address>,
    pub recent_blockhash: Blockhash,
    pub instructions: Seq<CompiledInstructionView>,
    pub address_table_lookups: Seq<LookupView>,
}

impl View for V0Message {
    type V = V0MessageView;

    open spec fn view(&self) -> V0MessageView {
        V0MessageView {
            header: self.header,
            account_keys: self.account_keys@,
            recent_blockhash: self.recent_blockhash,
            instructions: compiled_views(self.instructions@),
            address_table_lookups: lookup_views(self.address_table_lookups@),
        }
    }
}

/// A message of either format.
#[derive(Clone, Debug, PartialEq, Eq)]
pub enum VersionedMessage {
    Legacy(LegacyMessage),
    V0(V0Message),
}

impl VersionedMessage {
    /// The block hash the message was built against.
    pub open spec fn spec_recent_blockhash(&self) -> Blockhash {
        match self {
            VersionedMessage::Legacy(m) => m.recent_blockhash,
            VersionedMessage::V0(m) => m.recent_blockhash,
        }
    }

    /// The block hash the message was built against.
    pub fn recent_blockhash(&self) -> (r: Blockhash)
        ensures
            r == self.spec_recent_blockhash(),
    {
        match self {
            VersionedMessage::Legacy(m) => m.recent_blockhash,
            VersionedMessage::V0(m) => m.recent_blockhash,
        }
    }
}

/// A message with its signatures.
#[derive(Clone, Debug, PartialEq, Eq)]
pub struct VersionedTransaction {
    pub signatures: Vec<Signature>,
    pub message: VersionedMessage,
}

/// The addresses that a version-0 message loaded from lookup tables when it
/// ran, writable ones apart from read-only ones.
#[derive(Clone, Debug, PartialEq, Eq)]
pub struct LoadedAddresses {
    pub writable: Vec<Address>,
    pub readonly: Vec<Address>,
}

/// The part of a transaction's execution metadata that resolution reads.
#[derive(Clone, Debug, PartialEq, Eq)]
pub struct TransactionStatusMeta {
    pub loaded_addresses: LoadedAddresses,
}

/// What a signed version-0 transaction holds, as mathematical values.
pub ghost struct SignedV0View {
    pub signatures: Seq<Signature>,
    pub message: V0MessageView,
}

impl VersionedTransaction {
    /// The signatures and message of a version-0 transaction.
    pub open spec fn v0_view(&self) -> Option<SignedV0View> {
        match self.message {
            VersionedMessage::V0(m) => Some(
                SignedV0View { signatures: self.signatures@, message: m@ },
            ),
            VersionedMessage::Legacy(_) => None,
        }
    }
}

} // verus!
