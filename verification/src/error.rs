use vstd::prelude::*;

verus! {

/// Why a governance instruction was rejected.
#[derive(Clone, Copy, Debug, PartialEq, Eq, Structural)]
pub enum Error {
    /// The message was not emitted by the configured governance authority.
    InvalidGovernanceKey,
    /// The message has been executed before.
    AlreadyClaimed,
    /// The requested guardian set does not directly follow the active one.
    InvalidGuardianSetUpgrade,
    /// The recipient account is not the one named in the message.
    InvalidFeeRecipient,
    /// No program-derived address exists for the seeds of a derived authority.
    DerivationFailed,
}

} // verus!
