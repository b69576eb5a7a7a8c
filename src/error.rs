use vstd::prelude::*;

verus! {

/// Why an invocation was refused before any transfer was requested.
#[derive(Clone, Copy, Debug, PartialEq, Eq, Structural)]
pub enum VaultError {
    /// Fewer than three accounts were supplied.
    NotEnoughAccountKeys,
    /// The instruction bytes are not a valid encoding.
    InvalidInstructionData,
    /// The user account does not carry the signer flag.
    MissingRequiredSignature,
    /// The vault account is not the address derived for the user, or no
    /// address could be derived at all.
    InvalidSeeds,
    /// A withdrawal asks for more than the vault holds.
    InsufficientFunds,
}

} // verus!
