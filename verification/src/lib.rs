//! Governance actions of a cross-chain bridge contract.
//!
//! A governance message instructs the contract to upgrade its own code, to
//! rotate the guardian set, to change the message fees or to pay collected
//! fees out. Every instruction first authenticates its message against the
//! configured governance authority, then refuses a message that was executed
//! before, then checks what the action itself demands, and only then claims
//! the message and applies the action. An instruction that is refused leaves
//! every record as it was.
//!
//! The instructions work on plain records and decide; what has to be run by
//! the host, the loader's upgrade and the system program's transfer, is
//! returned as an invocation together with the derived authority that signs
//! it.

pub mod address;
pub mod authentication;
pub mod authority;
pub mod bytes;
pub mod error;
pub mod governance;
pub mod instruction;
pub mod laws;
pub mod types;
