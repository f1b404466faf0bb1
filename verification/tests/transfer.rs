use bridge_governance::authority::DerivedAuthority;
use bridge_governance::error::Error;
use bridge_governance::governance::{transfer_fees, TransferFees, TransferFeesData};
use bridge_governance::instruction::{AccountMeta, Instruction, SYSTEM_PROGRAM_ID};
use bridge_governance::types::{
    BridgeConfig, BridgeData, ClaimRecord, ClaimableVAA, ExecutionContext, GovernanceAuthority,
    GovernanceMessage, GovernancePayloadTransferFees,
};
use solana_program::pubkey::Pubkey;

const GOVERNANCE_KEY: [u8; 32] = [1; 32];
const GOVERNANCE_TEXT: &str = "4vJ9JU1bJJE96FWSJKvHsmmFADCg4gpZQff4P3bkLKi";
const PROGRAM: [u8; 32] = [7; 32];
const COLLECTOR: [u8; 32] = [0xc0; 32];
const X: [u8; 32] = [0x58; 32];
const Y: [u8; 32] = [0x59; 32];

fn context() -> ExecutionContext {
    ExecutionContext {
        program_id: PROGRAM,
        governance: GovernanceAuthority {
            emitter_chain: 1,
            emitter_address: GOVERNANCE_TEXT.to_string(),
        },
    }
}

fn disbursement(to: [u8; 32], amount: u64, recipient: [u8; 32]) -> TransferFees {
    TransferFees {
        payer: [9; 32],
        bridge: BridgeData {
            guardian_set_index: 2,
            config: BridgeConfig { guardian_set_expiration_time: 86_400, fee: 10, fee_persistent: 20 },
        },
        vaa: ClaimableVAA {
            message: GovernanceMessage {
                emitter_chain: 1,
                emitter_address: GOVERNANCE_KEY,
                sequence: 8,
                timestamp: 1_650_000_000,
                payload: GovernancePayloadTransferFees { amount, to },
            },
            claim: ClaimRecord { claimed: false },
        },
        fee_collector: COLLECTOR,
        recipient,
    }
}

#[test]
fn fees_are_paid_to_the_named_recipient() {
    let ctx = context();
    let mut accs = disbursement(X, 1000, X);
    let invocation = transfer_fees(&ctx, &mut accs, TransferFeesData {}).unwrap();
    assert_eq!(
        invocation.instruction,
        Instruction {
            program_id: SYSTEM_PROGRAM_ID,
            accounts: vec![
                AccountMeta { pubkey: COLLECTOR, is_signer: true, is_writable: true },
                AccountMeta { pubkey: X, is_signer: false, is_writable: true },
            ],
            data: vec![2, 0, 0, 0, 0xe8, 0x03, 0, 0, 0, 0, 0, 0],
        }
    );
    assert!(accs.vaa.claim.claimed);
    assert_eq!(accs.fee_collector, COLLECTOR);
    assert_eq!(accs.recipient, X);
}

#[test]
fn transfer_is_the_system_programs_own() {
    let ctx = context();
    let amount = 0x0102_0304_0506_0708u64;
    let mut accs = disbursement(X, amount, X);
    let invocation = transfer_fees(&ctx, &mut accs, TransferFeesData {}).unwrap();
    let expected = solana_program::system_instruction::transfer(
        &Pubkey::new_from_array(COLLECTOR),
        &Pubkey::new_from_array(X),
        amount,
    );
    assert_eq!(invocation.instruction.program_id, expected.program_id.to_bytes());
    assert_eq!(invocation.instruction.data, expected.data);
    assert_eq!(invocation.instruction.data, vec![2, 0, 0, 0, 8, 7, 6, 5, 4, 3, 2, 1]);
    assert_eq!(invocation.instruction.accounts.len(), expected.accounts.len());
    for (ours, theirs) in invocation.instruction.accounts.iter().zip(expected.accounts.iter()) {
        assert_eq!(ours.pubkey, theirs.pubkey.to_bytes());
        assert_eq!(ours.is_signer, theirs.is_signer);
        assert_eq!(ours.is_writable, theirs.is_writable);
    }
}

#[test]
fn transfer_is_signed_by_the_fee_collector() {
    let ctx = context();
    let mut accs = disbursement(X, 1000, X);
    let invocation = transfer_fees(&ctx, &mut accs, TransferFeesData {}).unwrap();
    let (_, bump) =
        Pubkey::find_program_address(&[b"fee_collector"], &Pubkey::new_from_array(PROGRAM));
    assert_eq!(
        invocation.authority,
        DerivedAuthority { seeds: vec![b"fee_collector".to_vec()], bump }
    );
    assert_eq!(
        invocation.authority.signer_seeds(),
        vec![b"fee_collector".to_vec(), vec![bump]]
    );
}

#[test]
fn other_recipient_is_refused() {
    let ctx = context();
    let mut accs = disbursement(X, 1000, Y);
    let before = accs.clone();
    assert_eq!(
        transfer_fees(&ctx, &mut accs, TransferFeesData {}),
        Err(Error::InvalidFeeRecipient)
    );
    assert_eq!(accs, before);
    assert!(!accs.vaa.claim.claimed);
}

#[test]
fn recipient_that_differs_in_one_byte_is_refused() {
    let ctx = context();
    let mut near = X;
    near[31] ^= 1;
    let mut accs = disbursement(X, 1000, near);
    assert_eq!(accs.verify(), Err(Error::InvalidFeeRecipient));
    assert_eq!(
        transfer_fees(&ctx, &mut accs, TransferFeesData {}),
        Err(Error::InvalidFeeRecipient)
    );
    assert_eq!(disbursement(X, 1000, X).verify(), Ok(()));
}

#[test]
fn fees_are_paid_once() {
    let ctx = context();
    let mut accs = disbursement(X, 1000, X);
    assert!(transfer_fees(&ctx, &mut accs, TransferFeesData {}).is_ok());
    let after = accs.clone();
    assert_eq!(transfer_fees(&ctx, &mut accs, TransferFeesData {}), Err(Error::AlreadyClaimed));
    assert_eq!(accs, after);
    accs.recipient = Y;
    assert_eq!(transfer_fees(&ctx, &mut accs, TransferFeesData {}), Err(Error::AlreadyClaimed));
}

#[test]
fn transfer_from_a_foreign_emitter_is_refused() {
    let ctx = context();
    let mut accs = disbursement(X, 1000, X);
    accs.vaa.message.emitter_address = [3; 32];
    let before = accs.clone();
    assert_eq!(
        transfer_fees(&ctx, &mut accs, TransferFeesData {}),
        Err(Error::InvalidGovernanceKey)
    );
    assert_eq!(accs, before);

    let mut accs = disbursement(X, 1000, Y);
    accs.vaa.message.emitter_chain = 5;
    assert_eq!(
        transfer_fees(&ctx, &mut accs, TransferFeesData {}),
        Err(Error::InvalidGovernanceKey)
    );
}

#[test]
fn whole_range_of_amounts() {
    let ctx = context();
    let mut accs = disbursement(X, 0, X);
    let invocation = transfer_fees(&ctx, &mut accs, TransferFeesData {}).unwrap();
    assert_eq!(invocation.instruction.data, vec![2, 0, 0, 0, 0, 0, 0, 0, 0, 0, 0, 0]);
    let mut accs = disbursement(X, u64::MAX, X);
    let invocation = transfer_fees(&ctx, &mut accs, TransferFeesData {}).unwrap();
    assert_eq!(
        invocation.instruction.data,
        vec![2, 0, 0, 0, 255, 255, 255, 255, 255, 255, 255, 255]
    );
}
