//! The failure taxonomy of the custody engine.
//!
//! Every guard in the engine maps to exactly one of these variants; no error
//! is swallowed, and each operation surfaces its first violated check as its
//! sole outcome.

use vstd::prelude::*;

verus! {

/// Failures of the depository: deposits, transfer authorization and the
/// admin operations around them.
#[derive(Clone, Copy, Debug, PartialEq, Eq, Structural)]
pub enum CustomError {
    /// The transfer request has already been executed.
    TransferRequestAlreadyUsed,
    /// The provided mint does not match the expected mint.
    InvalidMint,
    /// The provided token program is not an accepted token program.
    InvalidTokenProgram,
    /// The caller is not authorized for this operation.
    Unauthorized,
    /// The signature's signer is not the configured allocator.
    AllocatorSignerMismatch,
    /// The signed message is not the hash of the expected request.
    MessageMismatch,
    /// The signature-check instruction's bytes are malformed.
    MalformedEd25519Data,
    /// The required signature-check instruction is missing.
    MissingSignature,
    /// The request's expiration has passed.
    SignatureExpired,
    /// The supplied recipient does not match the request's recipient.
    InvalidRecipient,
    /// The vault token account is not the vault's derived token account.
    InvalidVaultTokenAccount,
    /// The vault cannot cover the transfer and keep its reserve floor.
    InsufficientVaultBalance,
    /// The request's domain separator is not this deployment's.
    InvalidDomainSeparator,
    /// The domain separator has already been set.
    DomainSeparatorAlreadySet,
}

/// Failures of the deposit-address program: sweeps and the whitelisted call.
#[derive(Clone, Copy, Debug, PartialEq, Eq, Structural)]
pub enum DepositAddressError {
    /// The deposit address has no balance available to sweep.
    InsufficientBalance,
    /// The caller is not authorized for this operation.
    Unauthorized,
    /// The token path was invoked without its token-side accounts.
    MissingTokenAccounts,
}

} // verus!
