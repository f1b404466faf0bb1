//! Instructions that the bridge asks the host to run on its behalf, and the
//! builders of `solana_program` that produce them.

use vstd::prelude::*;
use solana_program::pubkey::Pubkey;
use crate::address::derived_address;
use crate::authority::{DerivedAuthority, DerivedAuthorityView};
use crate::bytes::le_bytes_u64;

verus! {

/// Address of the system program.
pub const SYSTEM_PROGRAM_ID: [u8; 32] = [
    0, 0, 0, 0, 0, 0, 0, 0, 0, 0, 0, 0, 0, 0, 0, 0, 0, 0, 0, 0, 0, 0, 0, 0, 0, 0, 0, 0, 0, 0, 0, 0,
];

/// Address of the upgradeable BPF loader.
pub const BPF_LOADER_UPGRADEABLE_ID: [u8; 32] = [
    2, 168, 246, 145, 78, 136, 161, 176, 226, 16, 21, 62, 247, 99, 174, 43, 0, 194, 185, 61, 22, 193,
    36, 210, 192, 83, 122, 16, 4, 128, 0, 0,
];

/// Address of the rent sysvar.
pub const RENT_SYSVAR_ID: [u8; 32] = [
    6, 167, 213, 23, 25, 44, 92, 81, 33, 140, 201, 76, 61, 74, 241, 127, 88, 218, 238, 8, 155, 161,
    253, 68, 227, 219, 217, 138, 0, 0, 0, 0,
];

/// Address of the clock sysvar.
pub const CLOCK_SYSVAR_ID: [u8; 32] = [
    6, 167, 213, 23, 24, 199, 116, 201, 40, 86, 99, 152, 105, 29, 94, 182, 139, 94, 184, 163, 155,
    75, 109, 92, 115, 85, 91, 33, 0, 0, 0, 0,
];

/// An account that an instruction touches.
#[derive(Clone, Copy, Debug, PartialEq, Eq)]
pub struct AccountMeta {
    pub pubkey: [u8; 32],
    pub is_signer: bool,
    pub is_writable: bool,
}

/// An instruction for another program.
#[derive(Clone, Debug, PartialEq, Eq)]
pub struct Instruction {
    pub program_id: [u8; 32],
    pub accounts: Vec<AccountMeta>,
    pub data: Vec<u8>,
}

/// What an `AccountMeta` stands for.
pub struct AccountMetaView {
    pub pubkey: Seq<u8>,
    pub is_signer: bool,
    pub is_writable: bool,
}

/// What an `Instruction` stands for.
pub struct InstructionView {
    pub program_id: Seq<u8>,
    pub accounts: Seq<AccountMetaView>,
    pub data: Seq<u8>,
}

impl View for AccountMeta {
    type V = AccountMetaView;

    open spec fn view(&self) -> AccountMetaView {
        AccountMetaView {
            pubkey: self.pubkey@,
            is_signer: self.is_signer,
            is_writable: self.is_writable,
        }
    }
}

impl View for Instruction {
    type V = InstructionView;

    open spec fn view(&self) -> InstructionView {
        InstructionView {
            program_id: self.program_id@,
            accounts: self.accounts@.map_values(|meta: AccountMeta| meta@),
            data: self.data@,
        }
    }
}

/// An instruction to be run under the signature of a derived authority.
#[derive(Clone, Debug, PartialEq, Eq)]
pub struct SignedInvocation {
    pub instruction: Instruction,
    pub authority: DerivedAuthority,
}

/// What a `SignedInvocation` stands for.
pub struct SignedInvocationView {
    pub instruction: InstructionView,
    pub authority: DerivedAuthorityView,
}

impl View for SignedInvocation {
    type V = SignedInvocationView;

    open spec fn view(&self) -> SignedInvocationView {
        SignedInvocationView { instruction: self.instruction@, authority: self.authority@ }
    }
}

/// An account entry from its three parts.
pub fn account_meta(pubkey: [u8; 32], is_signer: bool, is_writable: bool) -> (meta: AccountMeta)
    ensures
        meta.pubkey == pubkey,
        meta.is_signer == is_signer,
        meta.is_writable == is_writable,
{
    AccountMeta { pubkey, is_signer, is_writable }
}

/// A writable account, signing or not.
pub open spec fn writable(pubkey: Seq<u8>, is_signer: bool) -> AccountMetaView {
    AccountMetaView { pubkey, is_signer, is_writable: true }
}

/// A read-only account, signing or not.
pub open spec fn readonly(pubkey: Seq<u8>, is_signer: bool) -> AccountMetaView {
    AccountMetaView { pubkey, is_signer, is_writable: false }
}

/// The system program's instruction that moves `lamports` from `from` to `to`:
/// `from` signs and both accounts are writable; the data is the instruction's
/// tag, 2, as four bytes, then the amount as eight, all least significant first.
pub open spec fn transfer_instruction(from: Seq<u8>, to: Seq<u8>, lamports: u64) -> InstructionView {
    InstructionView {
        program_id: SYSTEM_PROGRAM_ID@,
        accounts: seq![writable(from, true), writable(to, false)],
        data: seq![2u8, 0u8, 0u8, 0u8] + le_bytes_u64(lamports),
    }
}

/// The upgradeable loader's instruction that replaces the code of `program`,
/// whose data lives at `program_data`, with the contents of `buffer`. The
/// `authority` signs, and `spill` receives what the old data account held in
/// excess. The data is the instruction's tag, 3, as four bytes.
pub open spec fn upgrade_instruction(
    program_data: Seq<u8>,
    program: Seq<u8>,
    buffer: Seq<u8>,
    authority: Seq<u8>,
    spill: Seq<u8>,
) -> InstructionView {
    InstructionView {
        program_id: BPF_LOADER_UPGRADEABLE_ID@,
        accounts: seq![
            writable(program_data, false),
            writable(program, false),
            writable(buffer, false),
            writable(spill, false),
            readonly(RENT_SYSVAR_ID@, false),
            readonly(CLOCK_SYSVAR_ID@, false),
            readonly(authority, true),
        ],
        data: seq![3u8, 0u8, 0u8, 0u8],
    }
}

/// Calls `solana_program::system_instruction::transfer`. Trusted: the builder
/// addresses the system program, lists `from` as a writable signer and `to` as
/// writable, and serialises `SystemInstruction::Transfer` with bincode: the
/// variant's index, 2, as a 32-bit integer, then the amount as a 64-bit one,
/// both least significant byte first.
#[verifier::external_body]
pub(crate) fn system_transfer(from: &[u8; 32], to: &[u8; 32], lamports: u64) -> (ix: Instruction)
    ensures
        ix@ == transfer_instruction(from@, to@, lamports),
{
    let (from, to) = (Pubkey::new_from_array(*from), Pubkey::new_from_array(*to));
    let ix = solana_program::system_instruction::transfer(&from, &to, lamports);
    let accounts = ix.accounts.iter().map(|meta| account_meta(meta.pubkey.to_bytes(), meta.is_signer, meta.is_writable)).collect();
    Instruction { program_id: ix.program_id.to_bytes(), accounts, data: ix.data }
}

/// Calls `solana_program::bpf_loader_upgradeable::upgrade`. Trusted: the builder
/// addresses the upgradeable loader and lists, in this order, the program's
/// data account, the program, the buffer and the spill account, all writable,
/// then the rent and clock sysvars and the signing authority, all read-only.
/// The data account's address is the one derived from the program's address
/// under the loader. The data is `UpgradeableLoaderInstruction::Upgrade`
/// serialised with bincode: the variant's index, 3, as a 32-bit integer, least
/// significant byte first. The builder panics where that derivation finds no
/// address, so callers must rule this out.
#[verifier::external_body]
pub(crate) fn loader_upgrade(
    program: &[u8; 32],
    buffer: &[u8; 32],
    authority: &[u8; 32],
    spill: &[u8; 32],
) -> (ix: Instruction)
    requires
        derived_address(seq![program@], BPF_LOADER_UPGRADEABLE_ID@).is_some(),
    ensures
        ix@ == upgrade_instruction(
            derived_address(seq![program@], BPF_LOADER_UPGRADEABLE_ID@).unwrap().0,
            program@,
            buffer@,
            authority@,
            spill@,
        ),
{
    let ix = solana_program::bpf_loader_upgradeable::upgrade(
        &Pubkey::new_from_array(*program),
        &Pubkey::new_from_array(*buffer),
        &Pubkey::new_from_array(*authority),
        &Pubkey::new_from_array(*spill),
    );
    let accounts = ix.accounts.iter().map(|meta| account_meta(meta.pubkey.to_bytes(), meta.is_signer, meta.is_writable)).collect();
    Instruction { program_id: ix.program_id.to_bytes(), accounts, data: ix.data }
}

} // verus!
