//! The error kinds that the vault operations surface.

use vstd::prelude::*;

verus! {

/// Everything that can go wrong during a deposit or a withdrawal.
///
/// Every failure is surfaced synchronously as the operation's result; no
/// precondition failure leaves a partial balance mutation behind.
#[derive(Clone, Copy, Debug, PartialEq, Eq, Structural)]
pub enum VaultError {
    /// Deposit attempted against a holding account that already has a
    /// nonzero balance.
    VaultAlreadyExists,
    /// Deposit amount at or below the minimum viable balance.
    InvalidAmount,
    /// The caller failed to prove control of the owner identity.
    Unauthorized,
    /// The supplied holding-account reference does not match the
    /// deterministic derivation.
    InvalidVaultAddress,
    /// No admissible disambiguation value yields an off-curve address
    /// (practically unreachable, but a defined failure path).
    DerivationExhausted,
    /// The value-transfer primitive rejects the movement (for example,
    /// insufficient funds).
    TransferFailure,
}

} // verus!
