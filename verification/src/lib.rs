//! A non-custodial fund-custody and authorized-transfer engine.
//!
//! Depositors send native or token value into deterministically derived
//! holding addresses; that value is consolidated into a shared vault; vault
//! funds are released only against a transfer request carrying a valid
//! signature from a designated allocator, with strict replay protection and
//! time-boxing.

pub mod address;
pub mod codec;
pub mod deposit_address;
pub mod depository;
pub mod derive;
pub mod errors;
pub mod fees;
pub mod hashing;
pub mod sigverify;
pub mod vault;
