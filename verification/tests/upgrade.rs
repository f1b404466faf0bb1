use bridge_governance::authority::DerivedAuthority;
use bridge_governance::error::Error;
use bridge_governance::governance::{upgrade_contract, UpgradeContract, UpgradeContractData};
use bridge_governance::instruction::{
    AccountMeta, BPF_LOADER_UPGRADEABLE_ID, CLOCK_SYSVAR_ID, RENT_SYSVAR_ID, SYSTEM_PROGRAM_ID,
};
use bridge_governance::types::{
    ClaimRecord, ClaimableVAA, ExecutionContext, GovernanceAuthority, GovernanceMessage,
    GovernancePayloadUpgrade,
};
use solana_program::pubkey::Pubkey;

const GOVERNANCE_KEY: [u8; 32] = [1; 32];
const GOVERNANCE_TEXT: &str = "4vJ9JU1bJJE96FWSJKvHsmmFADCg4gpZQff4P3bkLKi";
const PROGRAM: [u8; 32] = [7; 32];
const BUFFER: [u8; 32] = [0xb0; 32];
const AUTHORITY: [u8; 32] = [0xa0; 32];
const SPILL: [u8; 32] = [0x50; 32];

fn context() -> ExecutionContext {
    ExecutionContext {
        program_id: PROGRAM,
        governance: GovernanceAuthority {
            emitter_chain: 1,
            emitter_address: GOVERNANCE_TEXT.to_string(),
        },
    }
}

fn upgrade(claimed: bool) -> UpgradeContract {
    UpgradeContract {
        payer: [9; 32],
        vaa: ClaimableVAA {
            message: GovernanceMessage {
                emitter_chain: 1,
                emitter_address: GOVERNANCE_KEY,
                sequence: 21,
                timestamp: 1_650_000_000,
                payload: GovernancePayloadUpgrade { new_contract: BUFFER },
            },
            claim: ClaimRecord { claimed },
        },
        upgrade_authority: AUTHORITY,
        spill: SPILL,
    }
}

#[test]
fn well_known_addresses() {
    assert_eq!(SYSTEM_PROGRAM_ID, solana_program::system_program::id().to_bytes());
    assert_eq!(BPF_LOADER_UPGRADEABLE_ID, solana_program::bpf_loader_upgradeable::id().to_bytes());
    assert_eq!(RENT_SYSVAR_ID, solana_program::sysvar::rent::id().to_bytes());
    assert_eq!(CLOCK_SYSVAR_ID, solana_program::sysvar::clock::id().to_bytes());
}

#[test]
fn upgrade_replaces_the_contracts_own_code() {
    let ctx = context();
    let mut accs = upgrade(false);
    let invocation = upgrade_contract(&ctx, &mut accs, UpgradeContractData {}).unwrap();
    let (program_data, _) = Pubkey::find_program_address(
        &[&PROGRAM],
        &Pubkey::new_from_array(BPF_LOADER_UPGRADEABLE_ID),
    );
    assert_eq!(invocation.instruction.program_id, BPF_LOADER_UPGRADEABLE_ID);
    assert_eq!(
        invocation.instruction.accounts,
        vec![
            AccountMeta { pubkey: program_data.to_bytes(), is_signer: false, is_writable: true },
            AccountMeta { pubkey: PROGRAM, is_signer: false, is_writable: true },
            AccountMeta { pubkey: BUFFER, is_signer: false, is_writable: true },
            AccountMeta { pubkey: SPILL, is_signer: false, is_writable: true },
            AccountMeta { pubkey: RENT_SYSVAR_ID, is_signer: false, is_writable: false },
            AccountMeta { pubkey: CLOCK_SYSVAR_ID, is_signer: false, is_writable: false },
            AccountMeta { pubkey: AUTHORITY, is_signer: true, is_writable: false },
        ]
    );
    assert_eq!(invocation.instruction.data, vec![3, 0, 0, 0]);
    assert!(accs.vaa.claim.claimed);
}

#[test]
fn upgrade_is_the_loaders_own() {
    let ctx = context();
    let mut accs = upgrade(false);
    let invocation = upgrade_contract(&ctx, &mut accs, UpgradeContractData {}).unwrap();
    let expected = solana_program::bpf_loader_upgradeable::upgrade(
        &Pubkey::new_from_array(PROGRAM),
        &Pubkey::new_from_array(BUFFER),
        &Pubkey::new_from_array(AUTHORITY),
        &Pubkey::new_from_array(SPILL),
    );
    assert!(solana_program::bpf_loader_upgradeable::is_upgrade_instruction(
        &invocation.instruction.data
    ));
    assert_eq!(invocation.instruction.program_id, expected.program_id.to_bytes());
    assert_eq!(invocation.instruction.data, expected.data);
    assert_eq!(invocation.instruction.accounts.len(), expected.accounts.len());
    for (ours, theirs) in invocation.instruction.accounts.iter().zip(expected.accounts.iter()) {
        assert_eq!(ours.pubkey, theirs.pubkey.to_bytes());
        assert_eq!(ours.is_signer, theirs.is_signer);
        assert_eq!(ours.is_writable, theirs.is_writable);
    }
}

#[test]
fn upgrade_is_signed_by_the_upgrade_authority() {
    let ctx = context();
    let mut accs = upgrade(false);
    let invocation = upgrade_contract(&ctx, &mut accs, UpgradeContractData {}).unwrap();
    let (_, bump) = Pubkey::find_program_address(&[b"upgrade"], &Pubkey::new_from_array(PROGRAM));
    assert_eq!(invocation.authority, DerivedAuthority { seeds: vec![b"upgrade".to_vec()], bump });
}

#[test]
fn claimed_upgrade_returns_no_instruction() {
    let ctx = context();
    let mut accs = upgrade(true);
    let before = accs.clone();
    assert_eq!(
        upgrade_contract(&ctx, &mut accs, UpgradeContractData {}),
        Err(Error::AlreadyClaimed)
    );
    assert_eq!(accs, before);
}

#[test]
fn upgrade_happens_once() {
    let ctx = context();
    let mut accs = upgrade(false);
    assert!(upgrade_contract(&ctx, &mut accs, UpgradeContractData {}).is_ok());
    let after = accs.clone();
    assert_eq!(
        upgrade_contract(&ctx, &mut accs, UpgradeContractData {}),
        Err(Error::AlreadyClaimed)
    );
    assert_eq!(accs, after);
}

#[test]
fn upgrade_from_a_foreign_emitter_is_refused() {
    let ctx = context();
    let mut accs = upgrade(false);
    accs.vaa.message.emitter_chain = 2;
    let before = accs.clone();
    assert_eq!(
        upgrade_contract(&ctx, &mut accs, UpgradeContractData {}),
        Err(Error::InvalidGovernanceKey)
    );
    assert_eq!(accs, before);
    assert!(!accs.vaa.claim.claimed);
}
