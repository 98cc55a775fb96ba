//! Mints and the transfer fee a token type may levy.
//!
//! A token deposit credits the vault with the amount net of the token's
//! transfer fee, when the token carries a fee extension: the fee comes from
//! the epoch schedule the mint itself declares, not from a flat rate. The
//! mint is modelled by the plain values the engine reads — its key, the
//! program that owns it, and its fee schedule.

use vstd::prelude::*;
use crate::address::Address;
use crate::address::TOKEN_PROGRAM_ID;
use crate::address::bytes32_eq;

verus! {

/// One entry of a mint's fee schedule.
#[derive(Clone, Copy, Debug, PartialEq, Eq)]
pub struct TransferFee {
    /// The first epoch in which this entry takes effect.
    pub epoch: u64,
    /// The largest fee this entry may assess, in tokens.
    pub maximum_fee: u64,
    /// The fee rate, in basis points of the transferred amount.
    pub transfer_fee_basis_points: u16,
}

/// A mint's fee schedule: the entry in force before and from its newer
/// entry's epoch.
#[derive(Clone, Copy, Debug, PartialEq, Eq)]
pub struct TransferFeeConfig {
    /// The entry in force while the epoch is below the newer entry's.
    pub older_transfer_fee: TransferFee,
    /// The entry in force from its own epoch on.
    pub newer_transfer_fee: TransferFee,
}

/// A token mint, reduced to the plain values the engine reads.
#[derive(Clone, Copy, Debug, PartialEq, Eq)]
pub struct MintInfo {
    /// The mint's own key.
    pub key: Address,
    /// The program that owns the mint.
    pub owner_program: Address,
    /// The number of decimals of the token.
    pub decimals: u8,
    /// The mint's fee schedule, when it carries the fee extension.
    pub transfer_fee_config: Option<TransferFeeConfig>,
}

/// The largest admissible fee rate: one hundred percent.
pub const MAX_FEE_BASIS_POINTS: u16 = 10000;

impl MintInfo {
    /// A well-formed mint never declares a fee rate above one hundred
    /// percent; the token program enforces this when the schedule is set.
    pub open spec fn wf(self) -> bool {
        match self.transfer_fee_config {
            None => true,
            Some(c) => c.older_transfer_fee.transfer_fee_basis_points <= MAX_FEE_BASIS_POINTS
                && c.newer_transfer_fee.transfer_fee_basis_points <= MAX_FEE_BASIS_POINTS,
        }
    }
}

/// What one schedule entry assesses on an amount: the rate rounded up,
/// capped by the entry's maximum — or nothing when the rounded-up rate
/// overflows 64 bits, which a rate within one hundred percent never does.
pub open spec fn spec_calculate_fee_raw(bps: u16, maximum_fee: u64, amount: u64) -> Option<u64> {
    if bps == 0 || amount == 0 {
        Some(0u64)
    } else {
        let raw = (amount as int * bps as int + 9999) / 10000;
        if raw > u64::MAX as int {
            None
        } else if raw > maximum_fee as int {
            Some(maximum_fee)
        } else {
            Some(raw as u64)
        }
    }
}

/// The schedule entry in force at an epoch.
pub open spec fn spec_epoch_fee(cfg: TransferFeeConfig, epoch: u64) -> TransferFee {
    if epoch >= cfg.newer_transfer_fee.epoch {
        cfg.newer_transfer_fee
    } else {
        cfg.older_transfer_fee
    }
}

/// The fee a mint assesses on an amount at an epoch: zero for a mint of the
/// legacy token program and for a mint without a fee schedule, the epoch
/// entry's assessment otherwise.
pub open spec fn spec_transfer_fee(mint: MintInfo, epoch: u64, amount: u64) -> int {
    if mint.owner_program@ == TOKEN_PROGRAM_ID@ {
        0
    } else {
        match mint.transfer_fee_config {
            None => 0,
            Some(cfg) => {
                let entry = spec_epoch_fee(cfg, epoch);
                match spec_calculate_fee_raw(
                    entry.transfer_fee_basis_points,
                    entry.maximum_fee,
                    amount,
                ) {
                    Some(f) => f as int,
                    None => 0,
                }
            },
        }
    }
}

/// Relies on `spl_token_2022::extension::transfer_fee::TransferFee::calculate_fee`:
/// for a non-zero rate and amount it returns the rate's share of the amount
/// rounded up, capped by the entry's maximum fee, and `None` when the
/// rounded-up share exceeds 64 bits; a deterministic function of its
/// arguments.
#[verifier::external_body]
fn calculate_fee_raw(bps: u16, maximum_fee: u64, pre_fee_amount: u64) -> (r: Option<u64>)
    ensures
        r == spec_calculate_fee_raw(bps, maximum_fee, pre_fee_amount),
{
    let entry = spl_token_2022::extension::transfer_fee::TransferFee {
        epoch: 0u64.into(),
        maximum_fee: maximum_fee.into(),
        transfer_fee_basis_points: bps.into(),
    };
    entry.calculate_fee(pre_fee_amount)
}

/// Calculates the transfer fee a mint assesses on an amount at an epoch.
///
/// Zero for a mint of the legacy token program and for a mint without a fee
/// schedule; the epoch entry's rounded-up, capped assessment otherwise. The
/// fee never exceeds the amount.
pub fn get_transfer_fee(mint: &MintInfo, epoch: u64, pre_fee_amount: u64) -> (fee: u64)
    requires
        mint.wf(),
    ensures
        fee as int == spec_transfer_fee(*mint, epoch, pre_fee_amount),
        fee <= pre_fee_amount,
{
    if bytes32_eq(&mint.owner_program.bytes, &TOKEN_PROGRAM_ID) {
        return 0;
    }
    match &mint.transfer_fee_config {
        None => 0,
        Some(cfg) => {
            let entry = if epoch >= cfg.newer_transfer_fee.epoch {
                cfg.newer_transfer_fee
            } else {
                cfg.older_transfer_fee
            };
            proof {
                lemma_fee_in_range(
                    entry.transfer_fee_basis_points,
                    entry.maximum_fee,
                    pre_fee_amount,
                );
            }
            match calculate_fee_raw(
                entry.transfer_fee_basis_points,
                entry.maximum_fee,
                pre_fee_amount,
            ) {
                Some(f) => f,
                None => 0,
            }
        },
    }
}

/// A rate within one hundred percent assesses at most the amount itself, so
/// the rounded-up share always fits 64 bits.
proof fn lemma_fee_in_range(bps: u16, maximum_fee: u64, amount: u64)
    requires
        bps <= MAX_FEE_BASIS_POINTS,
    ensures
        spec_calculate_fee_raw(bps, maximum_fee, amount) is Some,
        spec_calculate_fee_raw(bps, maximum_fee, amount)->Some_0 <= amount,
{
    if bps == 0 || amount == 0 {
    } else {
        let raw = (amount as int * bps as int + 9999) / 10000;
        assert(raw <= amount) by (nonlinear_arith)
            requires
                1 <= bps <= 10000 && 1 <= amount,
                raw == (amount as int * bps as int + 9999) / 10000,
        ;
    }
}

} // verus!
