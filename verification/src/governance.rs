//! The four governance instructions. Each one authenticates its message,
//! refuses a replay, checks what the action itself demands and only then
//! changes anything: an instruction that fails leaves every record as it was.

use vstd::prelude::*;
use crate::address::{derived_address, seeds_view, try_find_program_address};
use crate::authentication::{authorize, authorized, claimed};
use crate::authority::{authority_of, derive_authority, FEE_COLLECTOR_SEED, UPGRADE_SEED};
use crate::bytes::{array_bytes, copy_keys, same_key};
use crate::error::Error;
use crate::instruction::{
    loader_upgrade, system_transfer, transfer_instruction, upgrade_instruction, SignedInvocation,
    SignedInvocationView, BPF_LOADER_UPGRADEABLE_ID,
};
use crate::types::{
    BridgeConfig, BridgeData, ClaimableVAA, ExecutionContext, GovernanceMessage,
    GovernancePayloadGuardianSetChange, GovernancePayloadSetMessageFee,
    GovernancePayloadTransferFees, GovernancePayloadUpgrade, GuardianSetChangeView,
    GuardianSetData, GuardianSetView,
};

verus! {

/// Accounts of the instruction that sets the message fees.
#[derive(Clone, Debug, PartialEq, Eq)]
pub struct SetFees {
    /// Payer for the claim record.
    pub payer: [u8; 32],
    /// Bridge state.
    pub bridge: BridgeData,
    /// The governance message and its claim record.
    pub vaa: ClaimableVAA<GovernancePayloadSetMessageFee>,
}

/// Arguments of the instruction that sets the message fees: none.
#[derive(Clone, Copy, Debug, Default, PartialEq, Eq)]
pub struct SetFeesData {}

/// Whether the fees are set: exactly when the message passes the entry check.
pub open spec fn set_fees_outcome(ctx: ExecutionContext, accs: SetFees) -> Result<(), Error> {
    authorized(ctx.governance, accs.vaa)
}

/// The accounts after the instruction: on success the message is claimed and
/// both fees are the ones it carries; otherwise nothing has changed.
pub open spec fn set_fees_state(ctx: ExecutionContext, accs: SetFees) -> SetFees {
    if set_fees_outcome(ctx, accs).is_ok() {
        SetFees {
            payer: accs.payer,
            bridge: BridgeData {
                guardian_set_index: accs.bridge.guardian_set_index,
                config: BridgeConfig {
                    guardian_set_expiration_time: accs.bridge.config.guardian_set_expiration_time,
                    fee: accs.vaa.message.payload.fee,
                    fee_persistent: accs.vaa.message.payload.persisted_fee,
                },
            },
            vaa: claimed(accs.vaa),
        }
    } else {
        accs
    }
}

/// Sets the message fees to the ones that a governance message carries.
pub fn set_fees(ctx: &ExecutionContext, accs: &mut SetFees, _data: SetFeesData) -> (outcome: Result<
    (),
    Error,
>)
    ensures
        outcome == set_fees_outcome(*ctx, *old(accs)),
        *final(accs) == set_fees_state(*ctx, *old(accs)),
{
    authorize(&ctx.governance, &accs.vaa)?;
    accs.vaa.claim()?;
    accs.bridge.config.fee = accs.vaa.message.payload.fee;
    accs.bridge.config.fee_persistent = accs.vaa.message.payload.persisted_fee;
    Ok(())
}

/// Accounts of the instruction that rotates the guardian set.
#[derive(Clone, Debug, PartialEq, Eq)]
pub struct UpgradeGuardianSet {
    /// Payer for the claim record and the new guardian set.
    pub payer: [u8; 32],
    /// Bridge state.
    pub bridge: BridgeData,
    /// The governance message and its claim record.
    pub vaa: ClaimableVAA<GovernancePayloadGuardianSetChange>,
    /// The guardian set that is being superseded.
    pub guardian_set_old: GuardianSetData,
    /// The record that receives the new guardian set.
    pub guardian_set_new: GuardianSetData,
}

/// Arguments of the instruction that rotates the guardian set: none.
#[derive(Clone, Copy, Debug, Default, PartialEq, Eq)]
pub struct UpgradeGuardianSetData {}

/// What the accounts of a rotation stand for: the same records, with each
/// list of keys as a sequence.
pub struct UpgradeGuardianSetView {
    pub payer: [u8; 32],
    pub bridge: BridgeData,
    pub vaa: ClaimableVAA<GuardianSetChangeView>,
    pub guardian_set_old: GuardianSetView,
    pub guardian_set_new: GuardianSetView,
}

impl View for UpgradeGuardianSet {
    type V = UpgradeGuardianSetView;

    open spec fn view(&self) -> UpgradeGuardianSetView {
        UpgradeGuardianSetView {
            payer: self.payer,
            bridge: self.bridge,
            vaa: ClaimableVAA {
                message: GovernanceMessage {
                    emitter_chain: self.vaa.message.emitter_chain,
                    emitter_address: self.vaa.message.emitter_address,
                    sequence: self.vaa.message.sequence,
                    timestamp: self.vaa.message.timestamp,
                    payload: self.vaa.message.payload@,
                },
                claim: self.vaa.claim,
            },
            guardian_set_old: self.guardian_set_old@,
            guardian_set_new: self.guardian_set_new@,
        }
    }
}

/// Whether the guardian set that the message asks for directly follows both
/// the set presented as the old one and the bridge's active set.
pub open spec fn follows_active(accs: UpgradeGuardianSetView) -> bool {
    &&& accs.guardian_set_old.index + 1 == accs.vaa.message.payload.new_guardian_set_index
    &&& accs.bridge.guardian_set_index + 1 == accs.vaa.message.payload.new_guardian_set_index
}

/// When the superseded set expires: one grace period after the message's time.
pub open spec fn expiration_of(accs: UpgradeGuardianSetView) -> int {
    accs.vaa.message.timestamp + accs.bridge.config.guardian_set_expiration_time
}

impl UpgradeGuardianSet {
    /// Checks that the requested guardian set directly follows the active one.
    pub fn verify(&self) -> (outcome: Result<(), Error>)
        ensures
            outcome == (if follows_active(self@) {
                Ok::<(), Error>(())
            } else {
                Err::<(), Error>(Error::InvalidGuardianSetUpgrade)
            }),
    {
        let new_index = self.vaa.message.payload.new_guardian_set_index;
        if new_index == 0 {
            return Err(Error::InvalidGuardianSetUpgrade);
        }
        if self.guardian_set_old.index != new_index - 1 {
            return Err(Error::InvalidGuardianSetUpgrade);
        }
        if self.bridge.guardian_set_index != new_index - 1 {
            return Err(Error::InvalidGuardianSetUpgrade);
        }
        Ok(())
    }
}

/// Whether the guardian set is rotated: the message must pass the entry check
/// and ask for the set that follows the active one.
pub open spec fn upgrade_guardian_set_outcome(
    ctx: ExecutionContext,
    accs: UpgradeGuardianSetView,
) -> Result<(), Error> {
    match authorized(ctx.governance, accs.vaa) {
        Err(e) => Err(e),
        Ok(_) => if follows_active(accs) {
            Ok(())
        } else {
            Err(Error::InvalidGuardianSetUpgrade)
        },
    }
}

/// The accounts after the rotation instruction. On success the message is
/// claimed; the old set expires one grace period after the message's time and
/// is otherwise untouched; the new set has the message's index and keys, was
/// created at the message's time and does not expire; and the bridge points at
/// the new set. Otherwise nothing has changed.
pub open spec fn upgrade_guardian_set_state(
    ctx: ExecutionContext,
    accs: UpgradeGuardianSetView,
) -> UpgradeGuardianSetView {
    if upgrade_guardian_set_outcome(ctx, accs).is_ok() {
        UpgradeGuardianSetView {
            payer: accs.payer,
            bridge: BridgeData {
                guardian_set_index: accs.vaa.message.payload.new_guardian_set_index,
                config: accs.bridge.config,
            },
            vaa: claimed(accs.vaa),
            guardian_set_old: GuardianSetView {
                index: accs.guardian_set_old.index,
                keys: accs.guardian_set_old.keys,
                creation_time: accs.guardian_set_old.creation_time,
                expiration_time: Some(expiration_of(accs) as u32),
            },
            guardian_set_new: GuardianSetView {
                index: accs.vaa.message.payload.new_guardian_set_index,
                keys: accs.vaa.message.payload.new_guardian_set,
                creation_time: accs.vaa.message.timestamp,
                expiration_time: None,
            },
        }
    } else {
        accs
    }
}

/// Retires the active guardian set and activates the one that a governance
/// message carries. The old set's expiration must fit its field.
pub fn upgrade_guardian_set(
    ctx: &ExecutionContext,
    accs: &mut UpgradeGuardianSet,
    _data: UpgradeGuardianSetData,
) -> (outcome: Result<(), Error>)
    requires
        expiration_of(old(accs)@) <= u32::MAX,
    ensures
        outcome == upgrade_guardian_set_outcome(*ctx, old(accs)@),
        final(accs)@ == upgrade_guardian_set_state(*ctx, old(accs)@),
        outcome.is_err() ==> *final(accs) == *old(accs),
{
    authorize(&ctx.governance, &accs.vaa)?;
    accs.verify()?;
    accs.vaa.claim()?;

    // The old set stays valid for one grace period.
    accs.guardian_set_old.expiration_time = Some(
        accs.vaa.message.timestamp + accs.bridge.config.guardian_set_expiration_time,
    );

    // Fill the new guardian set.
    accs.guardian_set_new.index = accs.vaa.message.payload.new_guardian_set_index;
    accs.guardian_set_new.creation_time = accs.vaa.message.timestamp;
    accs.guardian_set_new.keys = copy_keys(&accs.vaa.message.payload.new_guardian_set);
    accs.guardian_set_new.expiration_time = None;

    // Make it the active one.
    accs.bridge.guardian_set_index = accs.vaa.message.payload.new_guardian_set_index;

    Ok(())
}

/// Accounts of the instruction that pays collected fees out.
#[derive(Clone, Debug, PartialEq, Eq)]
pub struct TransferFees {
    /// Payer for the claim record.
    pub payer: [u8; 32],
    /// Bridge state.
    pub bridge: BridgeData,
    /// The governance message and its claim record.
    pub vaa: ClaimableVAA<GovernancePayloadTransferFees>,
    /// The account that collects the message fees.
    pub fee_collector: [u8; 32],
    /// The account that is to receive them.
    pub recipient: [u8; 32],
}

/// Arguments of the instruction that pays collected fees out: none.
#[derive(Clone, Copy, Debug, Default, PartialEq, Eq)]
pub struct TransferFeesData {}

/// Whether the recipient account is the one that the message names.
pub open spec fn pays_named_recipient(accs: TransferFees) -> bool {
    accs.vaa.message.payload.to@ == accs.recipient@
}

impl TransferFees {
    /// Checks that the recipient account is the one that the message names.
    pub fn verify(&self) -> (outcome: Result<(), Error>)
        ensures
            outcome == (if pays_named_recipient(*self) {
                Ok::<(), Error>(())
            } else {
                Err::<(), Error>(Error::InvalidFeeRecipient)
            }),
    {
        if !same_key(&self.vaa.message.payload.to, &self.recipient) {
            return Err(Error::InvalidFeeRecipient);
        }
        Ok(())
    }
}

/// What the disbursement instruction answers. The message must pass the entry
/// check and name the recipient account, and the fee collector's authority
/// must be derivable; the answer is then the transfer of exactly the
/// message's amount from the fee collector to the recipient, to be signed by
/// that authority.
pub open spec fn transfer_fees_outcome(ctx: ExecutionContext, accs: TransferFees) -> Result<
    SignedInvocationView,
    Error,
> {
    match authorized(ctx.governance, accs.vaa) {
        Err(e) => Err(e),
        Ok(_) => if !pays_named_recipient(accs) {
            Err(Error::InvalidFeeRecipient)
        } else {
            match authority_of(
                FEE_COLLECTOR_SEED@,
                derived_address(seq![FEE_COLLECTOR_SEED@], ctx.program_id@),
            ) {
                Err(e) => Err(e),
                Ok(authority) => Ok(
                    SignedInvocationView {
                        instruction: transfer_instruction(
                            accs.fee_collector@,
                            accs.recipient@,
                            accs.vaa.message.payload.amount,
                        ),
                        authority,
                    },
                ),
            }
        },
    }
}

/// The accounts after the disbursement instruction: on success the message is
/// claimed; otherwise nothing has changed.
pub open spec fn transfer_fees_state(ctx: ExecutionContext, accs: TransferFees) -> TransferFees {
    if transfer_fees_outcome(ctx, accs).is_ok() {
        TransferFees {
            payer: accs.payer,
            bridge: accs.bridge,
            vaa: claimed(accs.vaa),
            fee_collector: accs.fee_collector,
            recipient: accs.recipient,
        }
    } else {
        accs
    }
}

/// Pays the amount that a governance message names out of the collected fees.
/// The transfer itself is returned: the caller runs it under the fee
/// collector's authority.
pub fn transfer_fees(ctx: &ExecutionContext, accs: &mut TransferFees, _data: TransferFeesData) -> (outcome:
    Result<SignedInvocation, Error>)
    ensures
        match outcome {
            Ok(invocation) => transfer_fees_outcome(*ctx, *old(accs)) == Ok::<
                SignedInvocationView,
                Error,
            >(invocation@),
            Err(e) => transfer_fees_outcome(*ctx, *old(accs)) == Err::<SignedInvocationView, Error>(
                e,
            ),
        },
        *final(accs) == transfer_fees_state(*ctx, *old(accs)),
{
    authorize(&ctx.governance, &accs.vaa)?;
    accs.verify()?;
    let authority = derive_authority(array_bytes(&FEE_COLLECTOR_SEED), &ctx.program_id)?;
    accs.vaa.claim()?;

    let instruction = system_transfer(
        &accs.fee_collector,
        &accs.recipient,
        accs.vaa.message.payload.amount,
    );
    Ok(SignedInvocation { instruction, authority })
}

/// Accounts of the instruction that upgrades the contract.
#[derive(Clone, Debug, PartialEq, Eq)]
pub struct UpgradeContract {
    /// Payer for the claim record.
    pub payer: [u8; 32],
    /// The governance message and its claim record.
    pub vaa: ClaimableVAA<GovernancePayloadUpgrade>,
    /// The derived account that the loader accepts as upgrade authority.
    pub upgrade_authority: [u8; 32],
    /// The account that receives what the upgrade leaves over.
    pub spill: [u8; 32],
}

/// Arguments of the instruction that upgrades the contract: none.
#[derive(Clone, Copy, Debug, Default, PartialEq, Eq)]
pub struct UpgradeContractData {}

/// What the upgrade instruction answers. The message must pass the entry
/// check, and both the upgrade authority and the address of the contract's
/// program data must be derivable; the answer is then the loader's upgrade of
/// the contract itself from the buffer that the message names, to be signed by
/// the upgrade authority.
pub open spec fn upgrade_contract_outcome(ctx: ExecutionContext, accs: UpgradeContract) -> Result<
    SignedInvocationView,
    Error,
> {
    match authorized(ctx.governance, accs.vaa) {
        Err(e) => Err(e),
        Ok(_) => match authority_of(
            UPGRADE_SEED@,
            derived_address(seq![UPGRADE_SEED@], ctx.program_id@),
        ) {
            Err(e) => Err(e),
            Ok(authority) => match derived_address(
                seq![ctx.program_id@],
                BPF_LOADER_UPGRADEABLE_ID@,
            ) {
                None => Err(Error::DerivationFailed),
                Some((program_data, _)) => Ok(
                    SignedInvocationView {
                        instruction: upgrade_instruction(
                            program_data,
                            ctx.program_id@,
                            accs.vaa.message.payload.new_contract@,
                            accs.upgrade_authority@,
                            accs.spill@,
                        ),
                        authority,
                    },
                ),
            },
        },
    }
}

/// The accounts after the upgrade instruction: on success the message is
/// claimed; otherwise nothing has changed.
pub open spec fn upgrade_contract_state(ctx: ExecutionContext, accs: UpgradeContract) -> UpgradeContract {
    if upgrade_contract_outcome(ctx, accs).is_ok() {
        UpgradeContract {
            payer: accs.payer,
            vaa: claimed(accs.vaa),
            upgrade_authority: accs.upgrade_authority,
            spill: accs.spill,
        }
    } else {
        accs
    }
}

/// Replaces the contract's code with the buffer that a governance message
/// names. The loader's instruction is returned only once the message is
/// claimed: the caller runs it under the upgrade authority.
pub fn upgrade_contract(
    ctx: &ExecutionContext,
    accs: &mut UpgradeContract,
    _data: UpgradeContractData,
) -> (outcome: Result<SignedInvocation, Error>)
    ensures
        match outcome {
            Ok(invocation) => upgrade_contract_outcome(*ctx, *old(accs)) == Ok::<
                SignedInvocationView,
                Error,
            >(invocation@),
            Err(e) => upgrade_contract_outcome(*ctx, *old(accs)) == Err::<
                SignedInvocationView,
                Error,
            >(e),
        },
        *final(accs) == upgrade_contract_state(*ctx, *old(accs)),
{
    authorize(&ctx.governance, &accs.vaa)?;
    let authority = derive_authority(array_bytes(&UPGRADE_SEED), &ctx.program_id)?;
    let program_seeds = vec![array_bytes(&ctx.program_id)];
    assert(seeds_view(program_seeds@) =~= seq![ctx.program_id@]);
    if try_find_program_address(&program_seeds, &BPF_LOADER_UPGRADEABLE_ID).is_none() {
        return Err(Error::DerivationFailed);
    }
    accs.vaa.claim()?;

    let instruction = loader_upgrade(
        &ctx.program_id,
        &accs.vaa.message.payload.new_contract,
        &accs.upgrade_authority,
        &accs.spill,
    );
    Ok(SignedInvocation { instruction, authority })
}

} // verus!
