//! The records that governance instructions read and write.

use vstd::prelude::*;
use crate::address::seeds_view;
use crate::bytes::{array_bytes, be_bytes_u16, be_bytes_u64, u16_be, u64_be};
use crate::error::Error;

verus! {

/// The emitter that may issue governance messages. The address is held in the
/// text form in which it is configured at deployment.
#[derive(Clone, Debug, PartialEq, Eq)]
pub struct GovernanceAuthority {
    pub emitter_chain: u16,
    pub emitter_address: String,
}

/// What every instruction knows of its surroundings: the contract's own
/// address and the governance authority it was deployed with.
#[derive(Clone, Debug, PartialEq, Eq)]
pub struct ExecutionContext {
    pub program_id: [u8; 32],
    pub governance: GovernanceAuthority,
}

/// A decoded governance message: where it comes from, its sequence number and
/// time, and the action it carries.
#[derive(Clone, Debug, PartialEq, Eq)]
pub struct GovernanceMessage<P> {
    pub emitter_chain: u16,
    pub emitter_address: [u8; 32],
    pub sequence: u64,
    pub timestamp: u32,
    pub payload: P,
}

/// The marker that a governance message has been executed. Once `claimed` is
/// set it stays set.
#[derive(Clone, Copy, Debug, PartialEq, Eq, Structural)]
pub struct ClaimRecord {
    pub claimed: bool,
}

/// A governance message together with its claim record.
#[derive(Clone, Debug, PartialEq, Eq)]
pub struct ClaimableVAA<P> {
    pub message: GovernanceMessage<P>,
    pub claim: ClaimRecord,
}

/// Action: replace the contract's code with the contents of a buffer account.
#[derive(Clone, Copy, Debug, PartialEq, Eq)]
pub struct GovernancePayloadUpgrade {
    pub new_contract: [u8; 32],
}

/// Action: make a new guardian set the active one.
#[derive(Clone, Debug, PartialEq, Eq)]
pub struct GovernancePayloadGuardianSetChange {
    pub new_guardian_set_index: u32,
    pub new_guardian_set: Vec<[u8; 20]>,
}

/// Action: set the message fee.
#[derive(Clone, Copy, Debug, PartialEq, Eq)]
pub struct GovernancePayloadSetMessageFee {
    pub fee: u64,
    pub persisted_fee: u64,
}

/// Action: pay collected fees out to a recipient.
#[derive(Clone, Copy, Debug, PartialEq, Eq)]
pub struct GovernancePayloadTransferFees {
    pub amount: u64,
    pub to: [u8; 32],
}

/// The bridge's settings.
#[derive(Clone, Copy, Debug, PartialEq, Eq)]
pub struct BridgeConfig {
    /// How long a guardian set stays valid after it was superseded.
    pub guardian_set_expiration_time: u32,
    /// Fee for posting a message.
    pub fee: u64,
    /// Fee for posting a message that is kept.
    pub fee_persistent: u64,
}

/// The bridge's singleton state.
#[derive(Clone, Copy, Debug, PartialEq, Eq)]
pub struct BridgeData {
    /// Index of the active guardian set.
    pub guardian_set_index: u32,
    pub config: BridgeConfig,
}

/// One version of the guardian set.
#[derive(Clone, Debug, PartialEq, Eq)]
pub struct GuardianSetData {
    pub index: u32,
    pub keys: Vec<[u8; 20]>,
    pub creation_time: u32,
    /// When the set stops being valid; `None` while it is the active set.
    pub expiration_time: Option<u32>,
}

/// What a guardian set change stands for: the new index and the list of keys.
pub struct GuardianSetChangeView {
    pub new_guardian_set_index: u32,
    pub new_guardian_set: Seq<[u8; 20]>,
}

impl View for GovernancePayloadGuardianSetChange {
    type V = GuardianSetChangeView;

    open spec fn view(&self) -> GuardianSetChangeView {
        GuardianSetChangeView {
            new_guardian_set_index: self.new_guardian_set_index,
            new_guardian_set: self.new_guardian_set@,
        }
    }
}

/// What a guardian set record stands for.
pub struct GuardianSetView {
    pub index: u32,
    pub keys: Seq<[u8; 20]>,
    pub creation_time: u32,
    pub expiration_time: Option<u32>,
}

impl View for GuardianSetData {
    type V = GuardianSetView;

    open spec fn view(&self) -> GuardianSetView {
        GuardianSetView {
            index: self.index,
            keys: self.keys@,
            creation_time: self.creation_time,
            expiration_time: self.expiration_time,
        }
    }
}

impl<P> ClaimableVAA<P> {
    /// Whether the message has been executed.
    pub fn is_claimed(&self) -> (claimed: bool)
        ensures
            claimed == self.claim.claimed,
    {
        self.claim.claimed
    }

    /// Marks the message as executed. A message that is already marked is
    /// refused with `AlreadyClaimed` and nothing changes.
    pub fn claim(&mut self) -> (outcome: Result<(), Error>)
        ensures
            old(self).claim.claimed ==> outcome == Err::<(), Error>(Error::AlreadyClaimed)
                && *final(self) == *old(self),
            !old(self).claim.claimed ==> outcome.is_ok() && final(self).claim.claimed
                && final(self).message == old(self).message,
    {
        if self.claim.claimed {
            return Err(Error::AlreadyClaimed);
        }
        self.claim.claimed = true;
        Ok(())
    }
}

/// The seeds of a message's claim record: the emitter's address, then the
/// emitter's chain and the sequence number, each most significant byte first.
pub open spec fn claim_seeds_of(emitter_chain: u16, emitter_address: Seq<u8>, sequence: u64) -> Seq<
    Seq<u8>,
> {
    seq![emitter_address, be_bytes_u16(emitter_chain), be_bytes_u64(sequence)]
}

/// Computes the seeds of a message's claim record.
pub fn claim_seeds<P>(message: &GovernanceMessage<P>) -> (seeds: Vec<Vec<u8>>)
    ensures
        seeds_view(seeds@) == claim_seeds_of(
            message.emitter_chain,
            message.emitter_address@,
            message.sequence,
        ),
{
    let seeds = vec![
        array_bytes(&message.emitter_address),
        u16_be(message.emitter_chain),
        u64_be(message.sequence),
    ];
    assert(seeds_view(seeds@) =~= claim_seeds_of(
        message.emitter_chain,
        message.emitter_address@,
        message.sequence,
    ));
    seeds
}

} // verus!
