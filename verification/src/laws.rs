//! What holds of the governance instructions as a whole, proved from their
//! contracts.

use vstd::prelude::*;
use crate::authority::guardian_set_seeds_of;
use crate::bytes::{be_bytes_u16_injective, be_bytes_u32_injective, be_bytes_u64_injective};
use crate::error::Error;
use crate::authentication::{authorized, is_governance};
use crate::governance::{
    expiration_of, follows_active, pays_named_recipient, set_fees_outcome, set_fees_state, transfer_fees_outcome, transfer_fees_state, upgrade_contract_outcome,
    upgrade_contract_state, upgrade_guardian_set_outcome, upgrade_guardian_set_state, SetFees,
    TransferFees, UpgradeContract, UpgradeGuardianSetView,
};
use crate::instruction::{transfer_instruction, SignedInvocationView};
use crate::types::{
    claim_seeds_of, ClaimableVAA, ExecutionContext, GovernanceAuthority, GuardianSetView,
};

verus! {

/// The fee accounts after the instruction was attempted `attempts` times in a
/// row.
pub open spec fn set_fees_repeated(ctx: ExecutionContext, accs: SetFees, attempts: nat) -> SetFees
    decreases attempts,
{
    if attempts == 0 {
        accs
    } else {
        set_fees_state(ctx, set_fees_repeated(ctx, accs, (attempts - 1) as nat))
    }
}

/// The disbursement accounts after the instruction was attempted `attempts`
/// times in a row.
pub open spec fn transfer_fees_repeated(
    ctx: ExecutionContext,
    accs: TransferFees,
    attempts: nat,
) -> TransferFees
    decreases attempts,
{
    if attempts == 0 {
        accs
    } else {
        transfer_fees_state(ctx, transfer_fees_repeated(ctx, accs, (attempts - 1) as nat))
    }
}

/// The upgrade accounts after the instruction was attempted `attempts` times
/// in a row.
pub open spec fn upgrade_contract_repeated(
    ctx: ExecutionContext,
    accs: UpgradeContract,
    attempts: nat,
) -> UpgradeContract
    decreases attempts,
{
    if attempts == 0 {
        accs
    } else {
        upgrade_contract_state(ctx, upgrade_contract_repeated(ctx, accs, (attempts - 1) as nat))
    }
}

/// The rotation accounts after the instruction was attempted `attempts` times
/// in a row.
pub open spec fn upgrade_guardian_set_repeated(
    ctx: ExecutionContext,
    accs: UpgradeGuardianSetView,
    attempts: nat,
) -> UpgradeGuardianSetView
    decreases attempts,
{
    if attempts == 0 {
        accs
    } else {
        upgrade_guardian_set_state(
            ctx,
            upgrade_guardian_set_repeated(ctx, accs, (attempts - 1) as nat),
        )
    }
}

/// A message is executed at most once. A claimed message from the governance
/// authority is refused with `AlreadyClaimed`, whatever action it carries and
/// whatever else the accounts hold.
pub proof fn claimed_message_is_refused<P>(authority: GovernanceAuthority, vaa: ClaimableVAA<P>)
    requires
        vaa.claim.claimed,
    ensures
        authorized(authority, vaa).is_err(),
        is_governance(authority, vaa.message) ==> authorized(authority, vaa) == Err::<(), Error>(
            Error::AlreadyClaimed,
        ),
{
}

/// Once the fees were set by a message, every further attempt with that
/// message is refused with `AlreadyClaimed` and changes nothing.
pub proof fn set_fees_replay_is_refused(ctx: ExecutionContext, accs: SetFees, attempts: nat)
    requires
        set_fees_outcome(ctx, accs).is_ok(),
        attempts >= 1,
    ensures
        set_fees_outcome(ctx, set_fees_repeated(ctx, accs, attempts)) == Err::<(), Error>(
            Error::AlreadyClaimed,
        ),
        set_fees_repeated(ctx, accs, attempts) == set_fees_state(ctx, accs),
    decreases attempts,
{
    if attempts > 1 {
        set_fees_replay_is_refused(ctx, accs, (attempts - 1) as nat);
    } else {
        assert(set_fees_repeated(ctx, accs, 0) == accs);
    }
}

/// Once fees were paid out by a message, every further attempt with that
/// message is refused with `AlreadyClaimed`, returns no transfer and changes
/// nothing.
pub proof fn transfer_fees_replay_is_refused(
    ctx: ExecutionContext,
    accs: TransferFees,
    attempts: nat,
)
    requires
        transfer_fees_outcome(ctx, accs).is_ok(),
        attempts >= 1,
    ensures
        transfer_fees_outcome(ctx, transfer_fees_repeated(ctx, accs, attempts)) == Err::<
            SignedInvocationView,
            Error,
        >(Error::AlreadyClaimed),
        transfer_fees_repeated(ctx, accs, attempts) == transfer_fees_state(ctx, accs),
    decreases attempts,
{
    if attempts > 1 {
        transfer_fees_replay_is_refused(ctx, accs, (attempts - 1) as nat);
    } else {
        assert(transfer_fees_repeated(ctx, accs, 0) == accs);
    }
}

/// Once the contract was upgraded by a message, every further attempt with
/// that message is refused with `AlreadyClaimed`, returns no upgrade and
/// changes nothing.
pub proof fn upgrade_contract_replay_is_refused(
    ctx: ExecutionContext,
    accs: UpgradeContract,
    attempts: nat,
)
    requires
        upgrade_contract_outcome(ctx, accs).is_ok(),
        attempts >= 1,
    ensures
        upgrade_contract_outcome(ctx, upgrade_contract_repeated(ctx, accs, attempts)) == Err::<
            SignedInvocationView,
            Error,
        >(Error::AlreadyClaimed),
        upgrade_contract_repeated(ctx, accs, attempts) == upgrade_contract_state(ctx, accs),
    decreases attempts,
{
    if attempts > 1 {
        upgrade_contract_replay_is_refused(ctx, accs, (attempts - 1) as nat);
    } else {
        assert(upgrade_contract_repeated(ctx, accs, 0) == accs);
    }
}

/// Once the guardian set was rotated by a message, every further attempt with
/// that message is refused with `AlreadyClaimed` and changes nothing.
pub proof fn upgrade_guardian_set_replay_is_refused(
    ctx: ExecutionContext,
    accs: UpgradeGuardianSetView,
    attempts: nat,
)
    requires
        upgrade_guardian_set_outcome(ctx, accs).is_ok(),
        attempts >= 1,
    ensures
        upgrade_guardian_set_outcome(ctx, upgrade_guardian_set_repeated(ctx, accs, attempts))
            == Err::<(), Error>(Error::AlreadyClaimed),
        upgrade_guardian_set_repeated(ctx, accs, attempts) == upgrade_guardian_set_state(ctx, accs),
    decreases attempts,
{
    if attempts > 1 {
        upgrade_guardian_set_replay_is_refused(ctx, accs, (attempts - 1) as nat);
    } else {
        assert(upgrade_guardian_set_repeated(ctx, accs, 0) == accs);
    }
}

/// A rotation succeeds only if the requested index is one more than both the
/// old set's index and the bridge's active index. A fresh message from the
/// governance authority that asks for any other index is refused with
/// `InvalidGuardianSetUpgrade`, and a refused rotation changes nothing.
pub proof fn rotation_needs_the_next_index(ctx: ExecutionContext, accs: UpgradeGuardianSetView)
    ensures
        upgrade_guardian_set_outcome(ctx, accs).is_ok() ==> {
            &&& accs.guardian_set_old.index + 1 == accs.vaa.message.payload.new_guardian_set_index
            &&& accs.bridge.guardian_set_index + 1
                == accs.vaa.message.payload.new_guardian_set_index
            &&& upgrade_guardian_set_state(ctx, accs).guardian_set_new.index
                == accs.vaa.message.payload.new_guardian_set_index
        },
        authorized(ctx.governance, accs.vaa).is_ok() ==> (upgrade_guardian_set_outcome(
            ctx,
            accs,
        ).is_ok() <==> follows_active(accs)),
        authorized(ctx.governance, accs.vaa).is_ok() && !follows_active(accs)
            ==> upgrade_guardian_set_outcome(ctx, accs) == Err::<(), Error>(
            Error::InvalidGuardianSetUpgrade,
        ),
        upgrade_guardian_set_outcome(ctx, accs).is_err() ==> upgrade_guardian_set_state(ctx, accs)
            == accs,
{
}

/// After a successful rotation the old set expires one grace period after the
/// message's time, the new set does not expire, and the bridge's active index
/// is the new set's index. The three change together: the same state holds
/// all of them.
pub proof fn rotation_retires_and_activates(ctx: ExecutionContext, accs: UpgradeGuardianSetView)
    requires
        upgrade_guardian_set_outcome(ctx, accs).is_ok(),
        expiration_of(accs) <= u32::MAX,
    ensures
        upgrade_guardian_set_state(ctx, accs).guardian_set_old.expiration_time matches Some(
            expiration,
        ) && expiration == accs.vaa.message.timestamp
            + accs.bridge.config.guardian_set_expiration_time,
        upgrade_guardian_set_state(ctx, accs).guardian_set_new.expiration_time.is_none(),
        upgrade_guardian_set_state(ctx, accs).bridge.guardian_set_index
            == upgrade_guardian_set_state(ctx, accs).guardian_set_new.index,
        upgrade_guardian_set_state(ctx, accs).guardian_set_new.index
            == accs.guardian_set_old.index + 1,
{
}

/// A message whose emitter is not the governance authority, by chain or by
/// address, is refused with `InvalidGovernanceKey` by every instruction,
/// whatever it carries and whatever the accounts hold, and nothing changes.
pub proof fn foreign_emitter_is_refused(
    ctx: ExecutionContext,
    fees: SetFees,
    rotation: UpgradeGuardianSetView,
    transfer: TransferFees,
    upgrade: UpgradeContract,
)
    ensures
        !is_governance(ctx.governance, fees.vaa.message) ==> set_fees_outcome(ctx, fees) == Err::<
            (),
            Error,
        >(Error::InvalidGovernanceKey) && set_fees_state(ctx, fees) == fees,
        !is_governance(ctx.governance, rotation.vaa.message) ==> upgrade_guardian_set_outcome(
            ctx,
            rotation,
        ) == Err::<(), Error>(Error::InvalidGovernanceKey) && upgrade_guardian_set_state(
            ctx,
            rotation,
        ) == rotation,
        !is_governance(ctx.governance, transfer.vaa.message) ==> transfer_fees_outcome(
            ctx,
            transfer,
        ) == Err::<SignedInvocationView, Error>(Error::InvalidGovernanceKey)
            && transfer_fees_state(ctx, transfer) == transfer,
        !is_governance(ctx.governance, upgrade.vaa.message) ==> upgrade_contract_outcome(
            ctx,
            upgrade,
        ) == Err::<SignedInvocationView, Error>(Error::InvalidGovernanceKey)
            && upgrade_contract_state(ctx, upgrade) == upgrade,
{
}

/// Fees are paid out only to the recipient that the message names, and then
/// the transfer moves exactly the message's amount from the fee collector to
/// that recipient. A fresh message from the governance authority that names
/// another recipient is refused with `InvalidFeeRecipient`; no transfer is
/// returned and nothing changes.
pub proof fn fees_go_to_the_named_recipient(ctx: ExecutionContext, accs: TransferFees)
    ensures
        transfer_fees_outcome(ctx, accs) matches Ok(invocation) ==> pays_named_recipient(accs)
            && invocation.instruction == transfer_instruction(
            accs.fee_collector@,
            accs.vaa.message.payload.to@,
            accs.vaa.message.payload.amount,
        ),
        authorized(ctx.governance, accs.vaa).is_ok() && !pays_named_recipient(accs) ==> {
            &&& transfer_fees_outcome(ctx, accs) == Err::<SignedInvocationView, Error>(
                Error::InvalidFeeRecipient,
            )
            &&& transfer_fees_state(ctx, accs) == accs
        },
{
}

/// The upgrade is returned only together with the claim: whenever the
/// instruction answers with the loader's upgrade the message was unclaimed
/// before and is claimed after, and where the message cannot be claimed no
/// upgrade is returned.
pub proof fn upgrade_comes_with_the_claim(ctx: ExecutionContext, accs: UpgradeContract)
    ensures
        upgrade_contract_outcome(ctx, accs).is_ok() ==> !accs.vaa.claim.claimed
            && upgrade_contract_state(ctx, accs).vaa.claim.claimed,
        accs.vaa.claim.claimed ==> upgrade_contract_outcome(ctx, accs).is_err()
            && upgrade_contract_state(ctx, accs) == accs,
{
}

/// Whether a list of guardian sets is a history that ends in the active set:
/// the sets are numbered from zero without a gap, and the last one, which the
/// bridge points at, is the only one that does not expire.
pub open spec fn is_history(active: u32, sets: Seq<GuardianSetView>) -> bool {
    &&& sets.len() == active + 1
    &&& forall|i: int| 0 <= i < sets.len() ==> (#[trigger] sets[i]).index == i
    &&& forall|i: int|
        0 <= i < sets.len() ==> ((#[trigger] sets[i]).expiration_time.is_none() <==> i == active)
}

/// A rotation extends the history of guardian sets by one. If the sets form a
/// history that ends in the set presented as the old one, then after a
/// successful rotation the same list, with the old set as it was left and the
/// new set added, is a history again: the numbering has no gap and exactly the
/// new set is active.
pub proof fn rotation_extends_the_history(
    ctx: ExecutionContext,
    accs: UpgradeGuardianSetView,
    sets: Seq<GuardianSetView>,
)
    requires
        upgrade_guardian_set_outcome(ctx, accs).is_ok(),
        is_history(accs.bridge.guardian_set_index, sets),
        sets[accs.bridge.guardian_set_index as int] == accs.guardian_set_old,
    ensures
        is_history(
            upgrade_guardian_set_state(ctx, accs).bridge.guardian_set_index,
            sets.update(
                accs.bridge.guardian_set_index as int,
                upgrade_guardian_set_state(ctx, accs).guardian_set_old,
            ).push(upgrade_guardian_set_state(ctx, accs).guardian_set_new),
        ),
{
}

/// Different messages have different claim records: the seeds of the claim
/// record determine the emitter's chain and address and the sequence number.
pub proof fn claim_seeds_tell_messages_apart(
    chain: u16,
    address: Seq<u8>,
    sequence: u64,
    other_chain: u16,
    other_address: Seq<u8>,
    other_sequence: u64,
)
    requires
        claim_seeds_of(chain, address, sequence) == claim_seeds_of(
            other_chain,
            other_address,
            other_sequence,
        ),
    ensures
        chain == other_chain,
        address == other_address,
        sequence == other_sequence,
{
    let seeds = claim_seeds_of(chain, address, sequence);
    let other = claim_seeds_of(other_chain, other_address, other_sequence);
    assert(seeds[0] == other[0]);
    assert(seeds[1] == other[1]);
    assert(seeds[2] == other[2]);
    be_bytes_u16_injective(chain, other_chain);
    be_bytes_u64_injective(sequence, other_sequence);
}

/// Different guardian sets have different records: the seeds of a guardian
/// set record determine its index.
pub proof fn guardian_set_seeds_tell_sets_apart(index: u32, other_index: u32)
    requires
        guardian_set_seeds_of(index) == guardian_set_seeds_of(other_index),
    ensures
        index == other_index,
{
    assert(guardian_set_seeds_of(index)[1] == guardian_set_seeds_of(other_index)[1]);
    be_bytes_u32_injective(index, other_index);
}

} // verus!
