//! A custodial lamport vault: per-user vault addresses derived from the user's
//! key, an instruction codec, and the account-role checks that decide which
//! native transfer the host is asked to perform.

pub mod address;
pub mod error;
pub mod instruction;
pub mod ledger;
pub mod processor;
