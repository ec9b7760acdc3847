//! The calls into the ledger's own library and the codec crates. Nothing in
//! this module is proved: each function states what the call it makes
//! returns, and the rest of the library is proved from those statements.

use std::sync::Arc;
use vstd::prelude::*;
use vstd::utf8::{decode_utf8, valid_utf8};
use solana_sdk::pubkey::Pubkey;
use crate::instruction::{instruction_views, AccountMeta, InstructionView, ResolvedInstruction};
use crate::keys::{Address, Blockhash, Signature};
use crate::layout::{u32_le_bytes, u64_le_bytes};
use crate::extract::{legacy_table, loaded_table};
use crate::message::{
    CompiledInstruction, CompiledInstructionView, LegacyMessage, LoadedAddresses,
    MessageAddressTableLookup, MessageHeader, SignedV0View, V0Message, V0MessageView,
};
use crate::tx_senders::constants::{COMPUTE_BUDGET_PROGRAM_ID, SYSTEM_PROGRAM_ID};

verus! {

/// `solana_sdk::instruction::Instruction`, carried between the calls below.
#[verifier::external_type_specification]
#[verifier::external_body]
pub struct ExSdkInstruction(solana_sdk::instruction::Instruction);

/// Copies an instruction of `solana_sdk` into the library's type, field by
/// field.
#[verifier::external_body]
fn from_sdk_instruction(ix: solana_sdk::instruction::Instruction) -> ResolvedInstruction {
    ResolvedInstruction {
        program_id: Address { bytes: ix.program_id.to_bytes() },
        accounts: ix.accounts.iter().map(
            |a| AccountMeta {
                pubkey: Address { bytes: a.pubkey.to_bytes() },
                is_signer: a.is_signer,
                is_writable: a.is_writable,
            },
        ).collect(),
        data: ix.data,
    }
}

/// `ComputeBudgetInstruction::set_compute_unit_limit`: an instruction of the
/// compute-budget program without accounts, whose payload is the tag 2 and
/// the limit as four little-endian bytes.
#[verifier::external_body]
pub(crate) fn set_compute_unit_limit(units: u32) -> (r: ResolvedInstruction)
    ensures
        r@ == (InstructionView {
            program_id: Address { bytes: COMPUTE_BUDGET_PROGRAM_ID },
            accounts: Seq::empty(),
            data: seq![2u8] + u32_le_bytes(units),
        }),
{
    from_sdk_instruction(
        solana_sdk::compute_budget::ComputeBudgetInstruction::set_compute_unit_limit(units),
    )
}

/// `ComputeBudgetInstruction::set_compute_unit_price`: an instruction of the
/// compute-budget program without accounts, whose payload is the tag 3 and
/// the price as eight little-endian bytes.
#[verifier::external_body]
pub(crate) fn set_compute_unit_price(micro_lamports: u64) -> (r: ResolvedInstruction)
    ensures
        r@ == (InstructionView {
            program_id: Address { bytes: COMPUTE_BUDGET_PROGRAM_ID },
            accounts: Seq::empty(),
            data: seq![3u8] + u64_le_bytes(micro_lamports),
        }),
{
    from_sdk_instruction(
        solana_sdk::compute_budget::ComputeBudgetInstruction::set_compute_unit_price(
            micro_lamports,
        ),
    )
}

/// `system_instruction::transfer`: an instruction of the system program on
/// the paying account, which signs and is writable, and the receiving
/// account, which is writable; its payload is the tag 2 as four
/// little-endian bytes and the amount as eight.
#[verifier::external_body]
pub(crate) fn transfer(from_pubkey: &Address, to_pubkey: &Address, lamports: u64) -> (r:
    ResolvedInstruction)
    ensures
        r@ == (InstructionView {
            program_id: Address { bytes: SYSTEM_PROGRAM_ID },
            accounts: seq![
                AccountMeta { pubkey: *from_pubkey, is_signer: true, is_writable: true },
                AccountMeta { pubkey: *to_pubkey, is_signer: false, is_writable: true },
            ],
            data: seq![2u8, 0u8, 0u8, 0u8] + u64_le_bytes(lamports),
        }),
{
    from_sdk_instruction(
        solana_sdk::system_instruction::transfer(
            &Pubkey::new_from_array(from_pubkey.bytes),
            &Pubkey::new_from_array(to_pubkey.bytes),
            lamports,
        ),
    )
}

/// The SHA-256 digest of a byte string.
pub uninterp spec fn sha256(data: Seq<u8>) -> Seq<u8>;

/// `solana_sdk::hash::hash`: the SHA-256 digest of `data`.
#[verifier::external_body]
pub(crate) fn hash(data: &[u8]) -> (r: [u8; 32])
    ensures
        r@ == sha256(data@),
{
    solana_sdk::hash::hash(data).to_bytes()
}

/// The address that a program derives from three seeds, where it derives
/// one.
pub uninterp spec fn program_address(
    first: Seq<u8>,
    second: Seq<u8>,
    third: Seq<u8>,
    program: Address,
) -> Option<Address>;

/// `Pubkey::try_find_program_address` on three seeds: the derived address
/// without its bump seed, or `None` where the search finds none.
#[verifier::external_body]
pub(crate) fn try_find_program_address(
    first: &[u8; 32],
    second: &[u8; 32],
    third: &[u8; 32],
    program: &Address,
) -> (r: Option<Address>)
    ensures
        r == program_address(first@, second@, third@, *program),
{
    match Pubkey::try_find_program_address(
        &[&first[..], &second[..], &third[..]],
        &Pubkey::new_from_array(program.bytes),
    ) {
        Some((address, _)) => Some(Address { bytes: address.to_bytes() }),
        None => None,
    }
}

/// The address of the key pair that 64 bytes spell, where they spell one.
pub uninterp spec fn keypair_address(secret: Seq<u8>) -> Option<Address>;

/// `Keypair::from_bytes` and the key pair's `pubkey`: `None` where the bytes
/// are no key pair.
#[verifier::external_body]
pub(crate) fn keypair_pubkey(secret: &[u8; 64]) -> (r: Option<Address>)
    ensures
        r == keypair_address(secret@),
{
    match solana_sdk::signer::keypair::Keypair::from_bytes(secret) {
        Ok(keypair) => Some(
            Address { bytes: solana_sdk::signer::Signer::pubkey(&keypair).to_bytes() },
        ),
        Err(_) => None,
    }
}

/// `solana_sdk::message::v0::Message`, carried between the calls below.
#[verifier::external_type_specification]
#[verifier::external_body]
pub struct ExV0Message(solana_sdk::message::v0::Message);

/// Copies an instruction into the type of `solana_sdk`, field by field.
#[verifier::external_body]
fn to_sdk_instruction(ix: &ResolvedInstruction) -> solana_sdk::instruction::Instruction {
    solana_sdk::instruction::Instruction {
        program_id: Pubkey::new_from_array(ix.program_id.bytes),
        accounts: ix.accounts.iter().map(
            |a| solana_sdk::instruction::AccountMeta {
                pubkey: Pubkey::new_from_array(a.pubkey.bytes),
                is_signer: a.is_signer,
                is_writable: a.is_writable,
            },
        ).collect(),
        data: ix.data.clone(),
    }
}

/// Copies the compiled instructions of a message of `solana_sdk`.
#[verifier::external_body]
fn compiled_of(m: &solana_sdk::message::v0::Message) -> Vec<CompiledInstruction> {
    m.instructions.iter().map(
        |c| CompiledInstruction {
            program_id_index: c.program_id_index,
            accounts: c.accounts.clone(),
            data: c.data.clone(),
        },
    ).collect()
}

/// Copies the table lookups of a message of `solana_sdk`.
#[verifier::external_body]
fn lookups_of(m: &solana_sdk::message::v0::Message) -> Vec<MessageAddressTableLookup> {
    m.address_table_lookups.iter().map(
        |l| MessageAddressTableLookup {
            account_key: Address { bytes: l.account_key.to_bytes() },
            writable_indexes: l.writable_indexes.clone(),
            readonly_indexes: l.readonly_indexes.clone(),
        },
    ).collect()
}

/// Copies a version-0 message of `solana_sdk` into the library's type, field
/// by field.
#[verifier::external_body]
fn from_sdk_message(m: &solana_sdk::message::v0::Message) -> V0Message {
    V0Message {
        header: MessageHeader {
            num_required_signatures: m.header.num_required_signatures,
            num_readonly_signed_accounts: m.header.num_readonly_signed_accounts,
            num_readonly_unsigned_accounts: m.header.num_readonly_unsigned_accounts,
        },
        account_keys: m.account_keys.iter().map(|k| Address { bytes: k.to_bytes() }).collect(),
        recent_blockhash: Blockhash { bytes: m.recent_blockhash.to_bytes() },
        instructions: compiled_of(m),
        address_table_lookups: lookups_of(m),
    }
}

/// Copies compiled instructions into a message of `solana_sdk`.
#[verifier::external_body]
fn set_compiled(out: &mut solana_sdk::message::v0::Message, m: &V0Message) {
    out.instructions = m.instructions.iter().map(
        |c| solana_sdk::instruction::CompiledInstruction {
            program_id_index: c.program_id_index,
            accounts: c.accounts.clone(),
            data: c.data.clone(),
        },
    ).collect();
}

/// Copies table lookups into a message of `solana_sdk`.
#[verifier::external_body]
fn set_lookups(out: &mut solana_sdk::message::v0::Message, m: &V0Message) {
    out.address_table_lookups = m.address_table_lookups.iter().map(
        |l| solana_sdk::message::v0::MessageAddressTableLookup {
            account_key: Pubkey::new_from_array(l.account_key.bytes),
            writable_indexes: l.writable_indexes.clone(),
            readonly_indexes: l.readonly_indexes.clone(),
        },
    ).collect();
}

/// Copies a version-0 message into the type of `solana_sdk`, field by field.
#[verifier::external_body]
fn to_sdk_message(m: &V0Message) -> solana_sdk::message::v0::Message {
    let mut out = solana_sdk::message::v0::Message::default();
    out.header.num_required_signatures = m.header.num_required_signatures;
    out.header.num_readonly_signed_accounts = m.header.num_readonly_signed_accounts;
    out.header.num_readonly_unsigned_accounts = m.header.num_readonly_unsigned_accounts;
    out.account_keys = m.account_keys.iter().map(|k| Pubkey::new_from_array(k.bytes)).collect();
    out.recent_blockhash = solana_sdk::hash::Hash::new_from_array(m.recent_blockhash.bytes);
    set_compiled(&mut out, m);
    set_lookups(&mut out, m);
    out
}

/// `solana_sdk::message::legacy::Message`, carried between the calls below.
#[verifier::external_type_specification]
#[verifier::external_body]
pub struct ExLegacyMessage(solana_sdk::message::legacy::Message);

/// Copies a legacy message into the type of `solana_sdk`, field by field.
/// The block hash, which no flag depends on, is left out.
#[verifier::external_body]
fn to_sdk_legacy(m: &LegacyMessage) -> solana_sdk::message::legacy::Message {
    let mut out = solana_sdk::message::legacy::Message::default();
    out.header.num_required_signatures = m.header.num_required_signatures;
    out.header.num_readonly_signed_accounts = m.header.num_readonly_signed_accounts;
    out.header.num_readonly_unsigned_accounts = m.header.num_readonly_unsigned_accounts;
    out.account_keys = m.account_keys.iter().map(|k| Pubkey::new_from_array(k.bytes)).collect();
    out.instructions = m.instructions.iter().map(
        |c| solana_sdk::instruction::CompiledInstruction {
            program_id_index: c.program_id_index,
            accounts: c.accounts.clone(),
            data: c.data.clone(),
        },
    ).collect();
    out
}

/// `legacy::Message::is_signer`: the index is below the count of required
/// signatures.
#[verifier::external_body]
pub(crate) fn legacy_is_signer(message: &LegacyMessage, i: usize) -> (r: bool)
    ensures
        r == legacy_table(*message).is_signer(i as int),
{
    to_sdk_legacy(message).is_signer(i)
}

/// `legacy::Message::is_maybe_writable` without reserved keys: the key at
/// the index is among the writable signers or the writable other keys, and
/// is not a program that the message runs, unless the upgradeable loader is
/// among the keys. The call subtracts the header's read-only counts from
/// the signers and the keys, and fails where they are greater, which the
/// bound leaves out.
#[verifier::external_body]
pub(crate) fn legacy_is_maybe_writable(message: &LegacyMessage, i: usize) -> (r: bool)
    requires
        legacy_table(*message).consistent(),
        i < message.account_keys@.len(),
    ensures
        r == legacy_table(*message).is_writable(i as int),
{
    to_sdk_legacy(message).is_maybe_writable(i, None)
}

/// `v0::LoadedMessage::is_signer`: the index is below the count of required
/// signatures.
#[verifier::external_body]
pub(crate) fn loaded_is_signer(message: &V0Message, loaded: &LoadedAddresses, i: usize) -> (r:
    bool)
    ensures
        r == loaded_table(*message, *loaded).is_signer(i as int),
{
    solana_sdk::message::v0::LoadedMessage::new(
        to_sdk_message(message),
        solana_sdk::message::v0::LoadedAddresses {
            writable: loaded.writable.iter().map(|k| Pubkey::new_from_array(k.bytes)).collect(),
            readonly: loaded.readonly.iter().map(|k| Pubkey::new_from_array(k.bytes)).collect(),
        },
        &solana_sdk::reserved_account_keys::ReservedAccountKeys::empty_key_set(),
    ).is_signer(i)
}

/// `v0::LoadedMessage::is_writable` without reserved keys: the key at the
/// index is among the writable signers, the writable other static keys or
/// the addresses loaded as writable, and is not a program that the message
/// runs, unless the upgradeable loader is among the keys. Counts that
/// exceed what they count are cut off, and an index beyond the keys is not
/// writable.
#[verifier::external_body]
pub(crate) fn loaded_is_writable(message: &V0Message, loaded: &LoadedAddresses, i: usize) -> (r:
    bool)
    ensures
        r == loaded_table(*message, *loaded).is_writable(i as int),
{
    solana_sdk::message::v0::LoadedMessage::new(
        to_sdk_message(message),
        solana_sdk::message::v0::LoadedAddresses {
            writable: loaded.writable.iter().map(|k| Pubkey::new_from_array(k.bytes)).collect(),
            readonly: loaded.readonly.iter().map(|k| Pubkey::new_from_array(k.bytes)).collect(),
        },
        &solana_sdk::reserved_account_keys::ReservedAccountKeys::empty_key_set(),
    ).is_writable(i)
}

/// The version-0 message that the ledger's library compiles from a payer,
/// instructions and a block hash without lookup tables, where it compiles
/// one.
pub uninterp spec fn compiled_v0(
    payer: Address,
    instructions: Seq<InstructionView>,
    recent_blockhash: Blockhash,
) -> Option<V0MessageView>;

/// A compiled instruction names, by its indices into `keys`, the program
/// and the accounts of `instruction`, in order, and carries its payload.
pub open spec fn names(
    keys: Seq<Address>,
    compiled: CompiledInstructionView,
    instruction: InstructionView,
) -> bool {
    &&& compiled.data == instruction.data
    &&& compiled.program_id_index < keys.len()
    &&& keys[compiled.program_id_index as int] == instruction.program_id
    &&& compiled.accounts.len() == instruction.accounts.len()
    &&& forall|j: int|
        0 <= j < compiled.accounts.len() ==> (#[trigger] compiled.accounts[j]) < keys.len()
            && keys[compiled.accounts[j] as int] == instruction.accounts[j].pubkey
}

/// What every message compiled without lookup tables has: the given block
/// hash, no table lookups, the payer as the first of at most 256 keys, and
/// one compiled instruction for each instruction, in order, that names it.
pub open spec fn compiles_to(
    payer: Address,
    instructions: Seq<InstructionView>,
    recent_blockhash: Blockhash,
    message: V0MessageView,
) -> bool {
    &&& message.recent_blockhash == recent_blockhash
    &&& message.address_table_lookups.len() == 0
    &&& 0 < message.account_keys.len() <= 256
    &&& message.account_keys[0] == payer
    &&& message.instructions.len() == instructions.len()
    &&& forall|k: int|
        0 <= k < instructions.len() ==> names(
            message.account_keys,
            #[trigger] message.instructions[k],
            instructions[k],
        )
}

/// `v0::Message::try_compile` without lookup tables: the compiled message,
/// or `None` where compilation fails. A compiled message is bound to the
/// given block hash, has no table lookups, lists the payer first among keys
/// that a one-byte index reaches, and names each instruction's program and
/// accounts by their place in its keys.
#[verifier::external_body]
pub(crate) fn try_compile(
    payer: &Address,
    instructions: &Vec<ResolvedInstruction>,
    recent_blockhash: &Blockhash,
) -> (r: Option<V0Message>)
    ensures
        match r {
            Some(m) => {
                &&& compiled_v0(*payer, instruction_views(instructions@), *recent_blockhash)
                    == Some(m@)
                &&& compiles_to(*payer, instruction_views(instructions@), *recent_blockhash, m@)
            },
            None => compiled_v0(*payer, instruction_views(instructions@), *recent_blockhash)
                is None,
        },
{
    let instructions: Vec<_> = instructions.iter().map(to_sdk_instruction).collect();
    match solana_sdk::message::v0::Message::try_compile(
        &Pubkey::new_from_array(payer.bytes),
        &instructions,
        &[],
        solana_sdk::hash::Hash::new_from_array(recent_blockhash.bytes),
    ) {
        Ok(m) => Some(from_sdk_message(&m)),
        Err(_) => None,
    }
}

/// The signatures that a key pair puts on a version-0 message as its only
/// signer, where the message takes them.
pub uninterp spec fn v0_signatures(message: V0MessageView, secret: Seq<u8>) -> Option<
    Seq<Signature>,
>;

/// The most elements that a list of a message is written with.
pub const MAX_LIST_LEN: usize = 65535;

/// Every list of the message can be written: the keys, the instructions
/// with their accounts and payloads, and the table lookups with their
/// indices have at most [`MAX_LIST_LEN`] elements each.
pub open spec fn writable_lists(message: V0MessageView) -> bool {
    &&& message.account_keys.len() <= MAX_LIST_LEN
    &&& message.instructions.len() <= MAX_LIST_LEN
    &&& message.address_table_lookups.len() <= MAX_LIST_LEN
    &&& forall|k: int|
        0 <= k < message.instructions.len() ==> (#[trigger] message.instructions[k]).accounts.len()
            <= MAX_LIST_LEN && message.instructions[k].data.len() <= MAX_LIST_LEN
    &&& forall|k: int|
        0 <= k < message.address_table_lookups.len() ==> (
        #[trigger] message.address_table_lookups[k]).writable_indexes.len() <= MAX_LIST_LEN
            && message.address_table_lookups[k].readonly_indexes.len() <= MAX_LIST_LEN
}

/// What every message signed by one key pair has: exactly one required
/// signature, and the key pair's address as its first key.
pub open spec fn signed_by(message: V0MessageView, secret: Seq<u8>) -> bool {
    &&& message.header.num_required_signatures == 1
    &&& message.account_keys.len() > 0
    &&& keypair_address(secret) == Some(message.account_keys[0])
}

/// `VersionedTransaction::try_new` on a version-0 message and one key pair:
/// the signatures of the new transaction, or `None` where the bytes are no
/// key pair or the message does not take exactly this signer. A message
/// that is signed asks for one signature, of the key pair, and gets one.
/// The call writes the message out before it signs, and fails on a list
/// that is too long to be written, which the bound leaves out.
#[verifier::external_body]
pub(crate) fn try_sign(message: &V0Message, secret: &[u8; 64]) -> (r: Option<Vec<Signature>>)
    requires
        writable_lists(message@),
    ensures
        match r {
            Some(signatures) => {
                &&& v0_signatures(message@, secret@) == Some(signatures@)
                &&& signatures@.len() == 1
                &&& signed_by(message@, secret@)
            },
            None => v0_signatures(message@, secret@) is None,
        },
{
    let keypair = solana_sdk::signer::keypair::Keypair::from_bytes(secret).ok()?;
    let message = solana_sdk::message::VersionedMessage::V0(to_sdk_message(message));
    match solana_sdk::transaction::VersionedTransaction::try_new(message, &[&keypair]) {
        Ok(tx) => Some(tx.signatures.iter().map(|s| Signature { bytes: (*s).into() }).collect()),
        Err(_) => None,
    }
}

/// The bytes that a signed version-0 transaction travels as, where it can be
/// written.
pub uninterp spec fn transaction_bytes(transaction: SignedV0View) -> Option<Seq<u8>>;

/// `bincode::serialize` on a versioned transaction: its wire bytes, or
/// `None` where serialisation fails.
#[verifier::external_body]
pub(crate) fn serialize_transaction(signatures: &Vec<Signature>, message: &V0Message) -> (r:
    Option<Vec<u8>>)
    ensures
        match r {
            Some(bytes) => transaction_bytes(
                SignedV0View { signatures: signatures@, message: message@ },
            ) == Some(bytes@),
            None => transaction_bytes(
                SignedV0View { signatures: signatures@, message: message@ },
            ) is None,
        },
{
    let transaction = solana_sdk::transaction::VersionedTransaction {
        signatures: signatures.iter().map(|s| s.bytes.into()).collect(),
        message: solana_sdk::message::VersionedMessage::V0(to_sdk_message(message)),
    };
    bincode::serialize(&transaction).ok()
}

/// The base64 text of a byte string, in the standard alphabet with padding.
pub uninterp spec fn base64_text(data: Seq<u8>) -> Seq<char>;

/// `base64::encode`. It fails on an input whose text would not fit in
/// memory, which the bound leaves out.
#[verifier::external_body]
pub(crate) fn base64_encode(data: &[u8]) -> (r: String)
    requires
        data@.len() <= usize::MAX / 2,
    ensures
        r@ == base64_text(data@),
{
    #[allow(deprecated)]
    base64::encode(data)
}

/// The base58 text of a byte string, in the ledger's alphabet.
pub uninterp spec fn base58_text(data: Seq<u8>) -> Seq<char>;

/// `bs58::encode(..).into_string()`. It fails on an input whose text would
/// not fit in memory, which the bound leaves out.
#[verifier::external_body]
pub(crate) fn base58_encode(data: &[u8]) -> (r: String)
    requires
        data@.len() <= usize::MAX / 2,
    ensures
        r@ == base58_text(data@),
{
    solana_sdk::bs58::encode(data).into_string()
}

/// The signature that a text spells in base58, where it spells one.
pub uninterp spec fn signature_of_text(text: Seq<char>) -> Option<Signature>;

/// `Signature::from_str`: `None` where the text is no base58 or does not
/// decode to 64 bytes.
#[verifier::external_body]
pub(crate) fn parse_signature(text: &str) -> (r: Option<Signature>)
    ensures
        r == signature_of_text(text@),
{
    match <solana_sdk::signature::Signature as std::str::FromStr>::from_str(text) {
        Ok(signature) => Some(Signature { bytes: signature.into() }),
        Err(_) => None,
    }
}

/// `Signature::to_string`: the base58 text of the signature's 64 bytes.
#[verifier::external_body]
pub(crate) fn signature_to_string(signature: &Signature) -> (r: String)
    ensures
        r@ == base58_text(signature@),
{
    solana_sdk::signature::Signature::from(signature.bytes).to_string()
}

/// The string under a key of the JSON object that a text spells, where the
/// text spells an object with a string under that key.
pub uninterp spec fn json_string_field(body: Seq<char>, key: Seq<char>) -> Option<Seq<char>>;

/// `serde_json::from_str` into a `Value`, then the string under `key`:
/// `None` where the text is no JSON, no object, or has no string there.
#[verifier::external_body]
pub(crate) fn json_get_string(body: &str, key: &str) -> (r: Option<String>)
    ensures
        match r {
            Some(text) => json_string_field(body@, key@) == Some(text@),
            None => json_string_field(body@, key@) is None,
        },
{
    match serde_json::from_str::<serde_json::Value>(body) {
        Ok(value) => value.get(key)?.as_str().map(String::from),
        Err(_) => None,
    }
}

/// `std::str::from_utf8`: the text that the bytes encode, or `None` where
/// they are no UTF-8.
#[verifier::external_body]
pub(crate) fn from_utf8(bytes: &[u8]) -> (r: Option<&str>)
    ensures
        match r {
            Some(text) => valid_utf8(bytes@) && text@ == decode_utf8(bytes@),
            None => !valid_utf8(bytes@),
        },
{
    std::str::from_utf8(bytes).ok()
}

/// `Arc::clone`: another pointer to the same value.
#[verifier::external_body]
pub(crate) fn arc_clone<T>(shared: &Arc<T>) -> (r: Arc<T>)
    ensures
        r == *shared,
{
    Arc::clone(shared)
}

} // verus!
