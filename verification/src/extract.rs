//! Resolution of a transaction's compiled instructions into instructions
//! that name every program and account by address, with the signer and
//! writable flag that the ledger's library gives each account.

use vstd::prelude::*;
use crate::error::{Error, GeyserResult};
use crate::instruction::{instruction_views, AccountMeta, InstructionView, ResolvedInstruction};
use crate::keys::{Address, ZERO_ADDRESS};
use crate::message::{
    compiled_views, CompiledInstructionView, LegacyMessage, LoadedAddresses, MessageHeader,
    TransactionStatusMeta, V0Message, VersionedMessage, VersionedTransaction,
};
use crate::sdk;

verus! {

/// The upgradeable loader's address,
/// `BPFLoaderUpgradeab1e11111111111111111111111`.
pub const UPGRADEABLE_LOADER: [u8; 32] = [
    2, 168, 246, 145, 78, 136, 161, 176, 226, 16, 21, 62, 247, 99, 174, 43,
    0, 194, 185, 61, 22, 193, 36, 210, 192, 83, 122, 16, 4, 128, 0, 0,
];

/// Everything that resolution reads: the header, the static keys, the
/// addresses loaded as writable and as read-only, and the compiled
/// instructions.
pub ghost struct KeyTable {
    pub versioned: bool,
    pub header: MessageHeader,
    pub static_keys: Seq<Address>,
    pub loaded_writable: Seq<Address>,
    pub loaded_readonly: Seq<Address>,
    pub instructions: Seq<CompiledInstructionView>,
}

/// The key table of a legacy message: static keys only.
pub open spec fn legacy_table(message: LegacyMessage) -> KeyTable {
    KeyTable {
        versioned: false,
        header: message.header,
        static_keys: message.account_keys@,
        loaded_writable: Seq::empty(),
        loaded_readonly: Seq::empty(),
        instructions: compiled_views(message.instructions@),
    }
}

/// The key table of a version-0 message with the addresses that it loaded,
/// whatever its own table lookups say.
pub open spec fn loaded_table(message: V0Message, loaded: LoadedAddresses) -> KeyTable {
    KeyTable {
        versioned: true,
        header: message.header,
        static_keys: message.account_keys@,
        loaded_writable: loaded.writable@,
        loaded_readonly: loaded.readonly@,
        instructions: compiled_views(message.instructions@),
    }
}

/// The key table of a message. A version-0 message is extended by the
/// loaded addresses that the metadata reports.
pub open spec fn key_table(meta: TransactionStatusMeta, message: VersionedMessage) -> KeyTable {
    match message {
        VersionedMessage::Legacy(m) => legacy_table(m),
        VersionedMessage::V0(m) => loaded_table(m, meta.loaded_addresses),
    }
}

impl KeyTable {
    /// All the accounts of the message in index order: static keys, then
    /// addresses loaded as writable, then addresses loaded as read-only.
    pub open spec fn keys(self) -> Seq<Address> {
        self.static_keys + self.loaded_writable + self.loaded_readonly
    }

    /// The header's counts fit the message. A legacy header must not count
    /// more read-only signers than signers, nor more read-only keys than
    /// keys; the counts of a version-0 header are cut off where they end.
    pub open spec fn consistent(self) -> bool {
        self.versioned || (self.header.num_readonly_signed_accounts
            <= self.header.num_required_signatures && self.header.num_readonly_unsigned_accounts
            <= self.static_keys.len())
    }

    /// The account at index `i` signs the transaction.
    pub open spec fn is_signer(self, i: int) -> bool {
        i < self.header.num_required_signatures
    }

    /// The message asks for the account at index `i` as writable: among the
    /// signers and among the other static keys the read-only ones come last,
    /// and loaded addresses are writable in the first of their two segments.
    pub open spec fn requested_writable(self, i: int) -> bool {
        if i >= self.static_keys.len() {
            i - self.static_keys.len() < self.loaded_writable.len()
        } else if i >= self.header.num_required_signatures {
            i < self.static_keys.len() - self.header.num_readonly_unsigned_accounts
        } else {
            i < self.header.num_required_signatures - self.header.num_readonly_signed_accounts
        }
    }

    /// Some instruction of the message runs the account at index `i` as its
    /// program.
    pub open spec fn called_as_program(self, i: int) -> bool {
        exists|k: int|
            0 <= k < self.instructions.len() && (
            #[trigger] self.instructions[k]).program_id_index == i
    }

    /// The upgradeable loader is among the message's accounts.
    pub open spec fn loader_present(self) -> bool {
        self.keys().contains(Address { bytes: UPGRADEABLE_LOADER })
    }

    /// The account at index `i` is writable: the message asks for it as
    /// writable, and it is not a program that the message runs, unless the
    /// upgradeable loader is present.
    pub open spec fn is_writable(self, i: int) -> bool {
        self.requested_writable(i) && !(self.called_as_program(i) && !self.loader_present())
    }

    /// What the account index `i` of an instruction resolves to. An index
    /// beyond the table resolves to nothing in a legacy message, and to the
    /// zero address in a version-0 message.
    pub open spec fn resolve_account(self, i: u8) -> Option<AccountMeta> {
        if i < self.keys().len() {
            Some(
                AccountMeta {
                    pubkey: self.keys()[i as int],
                    is_signer: self.is_signer(i as int),
                    is_writable: self.is_writable(i as int),
                },
            )
        } else if self.versioned {
            Some(
                AccountMeta {
                    pubkey: Address { bytes: ZERO_ADDRESS },
                    is_signer: self.is_signer(i as int),
                    is_writable: false,
                },
            )
        } else {
            None
        }
    }

    /// The accounts that a list of account indices resolves to, in order,
    /// leaving out the indices that resolve to nothing.
    pub open spec fn resolve_accounts(self, indices: Seq<u8>) -> Seq<AccountMeta>
        decreases indices.len(),
    {
        if indices.len() == 0 {
            Seq::empty()
        } else {
            let head = self.resolve_accounts(indices.drop_last());
            match self.resolve_account(indices.last()) {
                Some(meta) => head.push(meta),
                None => head,
            }
        }
    }

    /// The program of a compiled instruction is in the table.
    pub open spec fn resolvable(self, c: CompiledInstructionView) -> bool {
        c.program_id_index < self.keys().len()
    }

    /// The resolved form of a compiled instruction whose program is in the
    /// table.
    pub open spec fn resolve(self, c: CompiledInstructionView) -> InstructionView {
        InstructionView {
            program_id: self.keys()[c.program_id_index as int],
            accounts: self.resolve_accounts(c.accounts),
            data: c.data,
        }
    }

    /// The resolved forms of all the instructions, in order.
    pub open spec fn resolved(self) -> Seq<InstructionView> {
        self.instructions.map_values(|c: CompiledInstructionView| self.resolve(c))
    }

    /// Instruction `k` is the first whose program is not in the table.
    pub open spec fn first_unresolvable(self, k: int) -> bool {
        &&& 0 <= k < self.instructions.len()
        &&& !self.resolvable(self.instructions[k])
        &&& forall|j: int| 0 <= j < k ==> self.resolvable(#[trigger] self.instructions[j])
    }

    /// Every instruction's program is in the table.
    pub open spec fn all_resolvable(self) -> bool {
        forall|j: int|
            0 <= j < self.instructions.len() ==> self.resolvable(#[trigger] self.instructions[j])
    }
}

/// What resolving a message gives: the failure that a header is whose
/// counts do not fit the message, else the position of the first instruction
/// whose program is not in the table, else the resolved instructions.
pub open spec fn resolution(meta: TransactionStatusMeta, message: VersionedMessage) -> Result<
    Seq<InstructionView>,
    Error,
> {
    let t = key_table(meta, message);
    if !t.consistent() {
        Err(Error::MalformedHeader)
    } else if t.all_resolvable() {
        Ok(t.resolved())
    } else {
        Err(
            Error::ProgramIdOutOfRange {
                instruction: (choose|k: int| t.first_unresolvable(k)) as usize,
            },
        )
    }
}

/// At most one instruction is the first whose program is not in the table.
pub proof fn lemma_first_unresolvable_unique(t: KeyTable, a: int, b: int)
    requires
        t.first_unresolvable(a),
        t.first_unresolvable(b),
    ensures
        a == b,
        !t.all_resolvable(),
{
    if a < b {
        assert(t.resolvable(t.instructions[a]));
    }
    if b < a {
        assert(t.resolvable(t.instructions[b]));
    }
}

/// Where every index is in the table, every index resolves to an account:
/// none is left out, and each keeps its place.
pub proof fn lemma_resolve_in_range(t: KeyTable, indices: Seq<u8>)
    requires
        forall|j: int| 0 <= j < indices.len() ==> (#[trigger] indices[j]) < t.keys().len(),
    ensures
        t.resolve_accounts(indices).len() == indices.len(),
        forall|j: int|
            0 <= j < indices.len() ==> t.resolve_account(indices[j]) == Some(
                #[trigger] t.resolve_accounts(indices)[j],
            ),
    decreases indices.len(),
{
    if indices.len() > 0 {
        let head = indices.drop_last();
        assert forall|j: int| 0 <= j < head.len() implies (#[trigger] head[j]) < t.keys().len() by {
            assert(head[j] == indices[j]);
        }
        lemma_resolve_in_range(t, head);
        assert(indices.last() == indices[indices.len() - 1]);
        assert forall|j: int| 0 <= j < indices.len() implies t.resolve_account(indices[j]) == Some(
            #[trigger] t.resolve_accounts(indices)[j],
        ) by {
            if j < head.len() {
                assert(head[j] == indices[j]);
                assert(t.resolve_accounts(indices)[j] == t.resolve_accounts(head)[j]);
            }
        }
    }
}

/// Appends `more` to `keys`.
fn append_keys(keys: &mut Vec<Address>, more: &Vec<Address>)
    ensures
        final(keys)@ == old(keys)@ + more@,
{
    let mut i: usize = 0;
    while i < more.len()
        invariant
            i <= more.len(),
            keys@ == old(keys)@ + more@.take(i as int),
        decreases more.len() - i,
    {
        keys.push(more[i]);
        assert(keys@ =~= old(keys)@ + more@.take(i + 1));
        i += 1;
    }
    assert(more@.take(i as int) =~= more@);
}

/// The account table of a message as one list.
fn combined_keys(meta: &TransactionStatusMeta, message: &VersionedMessage) -> (r: Vec<Address>)
    ensures
        r@ == key_table(*meta, *message).keys(),
{
    let ghost t = key_table(*meta, *message);
    let mut r: Vec<Address> = Vec::new();
    match message {
        VersionedMessage::Legacy(m) => {
            append_keys(&mut r, &m.account_keys);
        },
        VersionedMessage::V0(m) => {
            append_keys(&mut r, &m.account_keys);
            append_keys(&mut r, &meta.loaded_addresses.writable);
            append_keys(&mut r, &meta.loaded_addresses.readonly);
        },
    }
    assert(r@ =~= t.keys());
    r
}

/// What one account index of an instruction resolves to, with the flags
/// that the ledger's library gives the account.
fn resolve_account(
    meta: &TransactionStatusMeta,
    message: &VersionedMessage,
    keys: &Vec<Address>,
    i: u8,
) -> (r: Option<AccountMeta>)
    requires
        keys@ == key_table(*meta, *message).keys(),
        key_table(*meta, *message).consistent(),
    ensures
        r == key_table(*meta, *message).resolve_account(i),
{
    let at = i as usize;
    match message {
        VersionedMessage::Legacy(m) => {
            if at < keys.len() {
                Some(
                    AccountMeta {
                        pubkey: keys[at],
                        is_writable: sdk::legacy_is_maybe_writable(m, at),
                        is_signer: sdk::legacy_is_signer(m, at),
                    },
                )
            } else {
                None
            }
        },
        VersionedMessage::V0(m) => {
            let pubkey = if at < keys.len() {
                keys[at]
            } else {
                Address::new(ZERO_ADDRESS)
            };
            Some(
                AccountMeta {
                    pubkey,
                    is_writable: sdk::loaded_is_writable(m, &meta.loaded_addresses, at),
                    is_signer: sdk::loaded_is_signer(m, &meta.loaded_addresses, at),
                },
            )
        },
    }
}

/// What the account indices of an instruction resolve to.
fn resolve_accounts(
    meta: &TransactionStatusMeta,
    message: &VersionedMessage,
    keys: &Vec<Address>,
    indices: &Vec<u8>,
) -> (r: Vec<AccountMeta>)
    requires
        keys@ == key_table(*meta, *message).keys(),
        key_table(*meta, *message).consistent(),
    ensures
        r@ == key_table(*meta, *message).resolve_accounts(indices@),
{
    let ghost t = key_table(*meta, *message);
    let mut r: Vec<AccountMeta> = Vec::new();
    let mut j: usize = 0;
    assert(r@ =~= t.resolve_accounts(indices@.take(0)));
    while j < indices.len()
        invariant
            j <= indices.len(),
            t == key_table(*meta, *message),
            keys@ == t.keys(),
            t.consistent(),
            r@ == t.resolve_accounts(indices@.take(j as int)),
        decreases indices.len() - j,
    {
        assert(indices@.take(j + 1).drop_last() =~= indices@.take(j as int));
        match resolve_account(meta, message, keys, indices[j]) {
            Some(account) => {
                r.push(account);
            },
            None => {},
        }
        j += 1;
    }
    assert(indices@.take(j as int) =~= indices@);
    r
}

/// Whether the header's counts fit the message.
fn header_is_consistent(message: &VersionedMessage) -> (r: bool)
    ensures
        forall|meta: TransactionStatusMeta| r == #[trigger] key_table(meta, *message).consistent(),
{
    match message {
        VersionedMessage::Legacy(m) => {
            m.header.num_readonly_signed_accounts <= m.header.num_required_signatures && (
            m.header.num_readonly_unsigned_accounts as usize) <= m.account_keys.len()
        },
        VersionedMessage::V0(_) => true,
    }
}

/// Resolves the compiled instructions of a transaction.
///
/// Each instruction's program and accounts are looked up in the message's
/// account table, which for a version-0 message includes the addresses that
/// the execution metadata reports as loaded. Every account gets the signer
/// and writable flag that the ledger's library gives it in the message. An
/// account index beyond the table is left out of a legacy instruction, and
/// becomes the zero address in a version-0 instruction.
///
/// A legacy header whose read-only counts exceed its signers or its keys
/// fails the transaction. So does a program index beyond the table, with
/// the position of the first such instruction.
pub fn extract_instructions(
    meta_data: TransactionStatusMeta,
    transaction: VersionedTransaction,
) -> (r: GeyserResult<Vec<ResolvedInstruction>>)
    ensures
        match r {
            Ok(v) => {
                &&& key_table(meta_data, transaction.message).consistent()
                &&& key_table(meta_data, transaction.message).all_resolvable()
                &&& instruction_views(v@) == key_table(meta_data, transaction.message).resolved()
                &&& v@.len() == key_table(meta_data, transaction.message).instructions.len()
            },
            Err(Error::MalformedHeader) => !key_table(meta_data, transaction.message).consistent(),
            Err(Error::ProgramIdOutOfRange { instruction }) => {
                &&& key_table(meta_data, transaction.message).consistent()
                &&& key_table(meta_data, transaction.message).first_unresolvable(
                    instruction as int,
                )
            },
            Err(_) => false,
        },
        match r {
            Ok(v) => resolution(meta_data, transaction.message) == Ok::<_, Error>(
                instruction_views(v@),
            ),
            Err(e) => resolution(meta_data, transaction.message) == Err::<Seq<InstructionView>, _>(
                e,
            ),
        },
{
    let ghost t = key_table(meta_data, transaction.message);
    if !header_is_consistent(&transaction.message) {
        return Err(Error::MalformedHeader);
    }
    let keys = combined_keys(&meta_data, &transaction.message);
    let compiled = match &transaction.message {
        VersionedMessage::Legacy(m) => &m.instructions,
        VersionedMessage::V0(m) => &m.instructions,
    };
    assert(compiled_views(compiled@) == t.instructions);
    let mut instructions: Vec<ResolvedInstruction> = Vec::new();
    let mut k: usize = 0;
    while k < compiled.len()
        invariant
            k <= compiled.len(),
            t == key_table(meta_data, transaction.message),
            t.consistent(),
            keys@ == t.keys(),
            compiled_views(compiled@) == t.instructions,
            forall|j: int| 0 <= j < k ==> t.resolvable(#[trigger] t.instructions[j]),
            instruction_views(instructions@) == t.resolved().take(k as int),
        decreases compiled.len() - k,
    {
        let c = &compiled[k];
        assert(t.instructions[k as int] == c@);
        let at = c.program_id_index as usize;
        if at >= keys.len() {
            assert(t.first_unresolvable(k as int));
            proof {
                let first = choose|j: int| t.first_unresolvable(j);
                lemma_first_unresolvable_unique(t, k as int, first);
            }
            return Err(Error::ProgramIdOutOfRange { instruction: k });
        }
        let ghost before = instructions@;
        let resolved = ResolvedInstruction {
            program_id: keys[at],
            accounts: resolve_accounts(&meta_data, &transaction.message, &keys, &c.accounts),
            data: c.data.clone(),
        };
        assert(resolved@ == t.resolve(c@));
        instructions.push(resolved);
        assert(instruction_views(instructions@) =~= instruction_views(before).push(resolved@));
        assert(t.resolved().take(k + 1) =~= t.resolved().take(k as int).push(t.resolve(c@)));
        k += 1;
    }
    assert(t.resolved().take(k as int) =~= t.resolved());
    Ok(instructions)
}

} // verus!
