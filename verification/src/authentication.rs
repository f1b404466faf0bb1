//! Authenticating governance messages: a message counts only if it was
//! emitted by the one configured governance authority, and only once.

use vstd::prelude::*;
use crate::address::{address_text, format_address};
use crate::error::Error;
use crate::types::{ClaimRecord, ClaimableVAA, GovernanceAuthority, GovernanceMessage};

verus! {

/// Whether an emitter, given by its chain and the text form of its address, is
/// the governance authority.
pub open spec fn is_authority(authority: GovernanceAuthority, chain: u16, emitter: Seq<char>) -> bool {
    emitter == authority.emitter_address@ && chain == authority.emitter_chain
}

/// Whether a message was emitted by the governance authority.
pub open spec fn is_governance<P>(
    authority: GovernanceAuthority,
    message: GovernanceMessage<P>,
) -> bool {
    is_authority(authority, message.emitter_chain, address_text(message.emitter_address@))
}

/// What the entry check of every action answers: a message from anyone but
/// the governance authority is refused with `InvalidGovernanceKey`, whatever
/// else holds of it; one that was executed before, with `AlreadyClaimed`.
pub open spec fn authorized<P>(authority: GovernanceAuthority, vaa: ClaimableVAA<P>) -> Result<
    (),
    Error,
> {
    if !is_governance(authority, vaa.message) {
        Err(Error::InvalidGovernanceKey)
    } else if vaa.claim.claimed {
        Err(Error::AlreadyClaimed)
    } else {
        Ok(())
    }
}

/// The record of a message once it has been executed.
pub open spec fn claimed<P>(vaa: ClaimableVAA<P>) -> ClaimableVAA<P> {
    ClaimableVAA { message: vaa.message, claim: ClaimRecord { claimed: true } }
}

/// Compares an emitter with the governance authority.
pub fn check_emitter(authority: &GovernanceAuthority, chain: u16, emitter: &String) -> (outcome:
    Result<(), Error>)
    ensures
        outcome == (if is_authority(*authority, chain, emitter@) {
            Ok::<(), Error>(())
        } else {
            Err::<(), Error>(Error::InvalidGovernanceKey)
        }),
{
    if authority.emitter_address != *emitter || chain != authority.emitter_chain {
        Err(Error::InvalidGovernanceKey)
    } else {
        Ok(())
    }
}

/// Confirms that a message came from the governance authority.
pub fn verify_claim<P>(authority: &GovernanceAuthority, vaa: &ClaimableVAA<P>) -> (outcome: Result<
    (),
    Error,
>)
    ensures
        outcome == (if is_governance(*authority, vaa.message) {
            Ok::<(), Error>(())
        } else {
            Err::<(), Error>(Error::InvalidGovernanceKey)
        }),
{
    let current_emitter = format_address(&vaa.message.emitter_address);
    check_emitter(authority, vaa.message.emitter_chain, &current_emitter)
}

/// The entry check of every action: authenticates the message, then refuses
/// it if it was executed before.
pub fn authorize<P>(authority: &GovernanceAuthority, vaa: &ClaimableVAA<P>) -> (outcome: Result<
    (),
    Error,
>)
    ensures
        outcome == authorized(*authority, *vaa),
{
    verify_claim(authority, vaa)?;
    if vaa.is_claimed() {
        return Err(Error::AlreadyClaimed);
    }
    Ok(())
}

} // verus!
