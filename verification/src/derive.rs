//! Derivation of protocol-owned addresses.
//!
//! The protocol owns accounts for which no private key exists: the vault, the
//! per-order deposit addresses, the replay records and the allow-list
//! records. Each is derived deterministically from a seed tuple and the
//! deployment's program identity, so anyone can reproduce it from the same
//! inputs, and only the protocol — by presenting the seed tuple and the bump
//! discriminant — can sign for it.

use vstd::prelude::*;
use crate::address::Address;
use crate::address::ALLOWED_PROGRAM_SEED;
use crate::address::DEPOSIT_ADDRESS_SEED;
use crate::address::RELAY_DEPOSITORY_SEED;
use crate::address::USED_REQUEST_SEED;
use crate::address::VAULT_SEED;
use crate::address::bytes_to_vec;
use crate::address::zero_bytes32;
use crate::address::zero32;

verus! {

/// What the platform's program-address derivation returns for a seed tuple
/// and a program identity: the derived off-curve address and its bump
/// discriminant, or nothing when no bump yields an off-curve point. The
/// result depends on the seeds and the program identity alone.
pub uninterp spec fn derived_address(seeds: Seq<Seq<u8>>, program_id: Seq<u8>) -> Option<
    (Seq<u8>, u8),
>;

/// Relies on `solana_pubkey::Pubkey::try_find_program_address` (re-exported
/// by `solana_program`): for a given seed list and program id it searches the
/// bump discriminants for an address that falls off the ed25519 curve, a
/// deterministic function of its arguments, and returns `None` when no bump
/// yields one.
#[verifier::external_body]
fn try_find_program_address(seeds: &Vec<Vec<u8>>, program_id: &Address) -> (r: Option<
    (Address, u8),
>)
    ensures
        match r {
            Some(p) => derived_address(seeds.deep_view(), program_id@) == Some((p.0@, p.1)),
            None => derived_address(seeds.deep_view(), program_id@) is None,
        },
{
    let seed_slices: Vec<&[u8]> = seeds.iter().map(|s| s.as_slice()).collect();
    let pid = solana_program::pubkey::Pubkey::new_from_array(program_id.bytes);
    solana_program::pubkey::Pubkey::try_find_program_address(&seed_slices, &pid).map(
        |p: (solana_program::pubkey::Pubkey, u8)| (Address { bytes: p.0.to_bytes() }, p.1),
    )
}

/// The seed tuple of the configuration address.
pub open spec fn depository_seeds() -> Seq<Seq<u8>> {
    seq![RELAY_DEPOSITORY_SEED@]
}

/// The seed tuple of the vault address.
pub open spec fn vault_seeds() -> Seq<Seq<u8>> {
    seq![VAULT_SEED@]
}

/// The seed tuple of the replay record for a request hash.
pub open spec fn used_request_seeds(hash: Seq<u8>) -> Seq<Seq<u8>> {
    seq![USED_REQUEST_SEED@, hash]
}

/// The identity a transfer target contributes to a seed tuple: the mint's
/// key for a token target, thirty-two zero bytes for the native target.
pub open spec fn token_seed_bytes(token: Option<Address>) -> Seq<u8> {
    match token {
        Some(mint) => mint@,
        None => zero32(),
    }
}

/// The seed tuple of the holding address for one order, target and
/// depositor.
pub open spec fn deposit_address_seeds(
    id: Seq<u8>,
    token: Option<Address>,
    depositor: Seq<u8>,
) -> Seq<Seq<u8>> {
    seq![DEPOSIT_ADDRESS_SEED@, id, token_seed_bytes(token), depositor]
}

/// The seed tuple of the allow-list record for a callee program.
pub open spec fn allowed_program_seeds(program: Seq<u8>) -> Seq<Seq<u8>> {
    seq![ALLOWED_PROGRAM_SEED@, program]
}

/// Derives the configuration address of a deployment.
pub fn derive_depository_address(program_id: &Address) -> (r: Option<(Address, u8)>)
    ensures
        match r {
            Some(p) => derived_address(depository_seeds(), program_id@) == Some((p.0@, p.1)),
            None => derived_address(depository_seeds(), program_id@) is None,
        },
{
    let mut seeds: Vec<Vec<u8>> = Vec::new();
    seeds.push(bytes_to_vec(&RELAY_DEPOSITORY_SEED));
    proof {
        assert(seeds.deep_view() =~~= depository_seeds());
    }
    try_find_program_address(&seeds, program_id)
}

/// Derives the vault address of a deployment.
pub fn derive_vault_address(program_id: &Address) -> (r: Option<(Address, u8)>)
    ensures
        match r {
            Some(p) => derived_address(vault_seeds(), program_id@) == Some((p.0@, p.1)),
            None => derived_address(vault_seeds(), program_id@) is None,
        },
{
    let mut seeds: Vec<Vec<u8>> = Vec::new();
    seeds.push(bytes_to_vec(&VAULT_SEED));
    proof {
        assert(seeds.deep_view() =~~= vault_seeds());
    }
    try_find_program_address(&seeds, program_id)
}

/// Derives the replay-record address for a request hash.
pub fn derive_used_request_address(hash: &[u8; 32], program_id: &Address) -> (r: Option<
    (Address, u8),
>)
    ensures
        match r {
            Some(p) => derived_address(used_request_seeds(hash@), program_id@) == Some(
                (p.0@, p.1),
            ),
            None => derived_address(used_request_seeds(hash@), program_id@) is None,
        },
{
    let mut seeds: Vec<Vec<u8>> = Vec::new();
    seeds.push(bytes_to_vec(&USED_REQUEST_SEED));
    seeds.push(bytes_to_vec(hash));
    proof {
        assert(seeds.deep_view() =~~= used_request_seeds(hash@));
    }
    try_find_program_address(&seeds, program_id)
}

/// Derives the holding address for one order, target and depositor.
pub fn derive_deposit_address(
    id: &[u8; 32],
    token: &Option<Address>,
    depositor: &Address,
    program_id: &Address,
) -> (r: Option<(Address, u8)>)
    ensures
        match r {
            Some(p) => derived_address(deposit_address_seeds(id@, *token, depositor@), program_id@)
                == Some((p.0@, p.1)),
            None => derived_address(deposit_address_seeds(id@, *token, depositor@), program_id@)
                is None,
        },
{
    let mut seeds: Vec<Vec<u8>> = Vec::new();
    seeds.push(bytes_to_vec(&DEPOSIT_ADDRESS_SEED));
    seeds.push(bytes_to_vec(id));
    match token {
        Some(mint) => seeds.push(bytes_to_vec(&mint.bytes)),
        None => seeds.push(zero_bytes32()),
    }
    seeds.push(bytes_to_vec(&depositor.bytes));
    proof {
        assert(seeds.deep_view() =~~= deposit_address_seeds(id@, *token, depositor@));
    }
    try_find_program_address(&seeds, program_id)
}

/// Derives the allow-list record address for a callee program.
pub fn derive_allowed_program_address(program: &Address, program_id: &Address) -> (r: Option<
    (Address, u8),
>)
    ensures
        match r {
            Some(p) => derived_address(allowed_program_seeds(program@), program_id@) == Some(
                (p.0@, p.1),
            ),
            None => derived_address(allowed_program_seeds(program@), program_id@) is None,
        },
{
    let mut seeds: Vec<Vec<u8>> = Vec::new();
    seeds.push(bytes_to_vec(&ALLOWED_PROGRAM_SEED));
    seeds.push(bytes_to_vec(&program.bytes));
    proof {
        assert(seeds.deep_view() =~~= allowed_program_seeds(program@));
    }
    try_find_program_address(&seeds, program_id)
}

/// Checks a caller-supplied holding address against the one derived from a
/// seed tuple: an operation must reject seeds that do not reproduce the
/// expected address. True exactly when the tuple derives an address and it
/// is the claimed one; the keys are compared in full, not fuzzily.
pub fn verify_deposit_address(
    claimed: &Address,
    id: &[u8; 32],
    token: &Option<Address>,
    depositor: &Address,
    program_id: &Address,
) -> (r: bool)
    ensures
        r == (derived_address(deposit_address_seeds(id@, *token, depositor@), program_id@) matches
            Some(p) && p.0 == claimed@),
{
    match derive_deposit_address(id, token, depositor, program_id) {
        None => false,
        Some(p) => p.0.eq_bytes(claimed),
    }
}

/// What the associated-token derivation returns for a wallet, a mint and a
/// token program: the address of the wallet's sub-account for that mint, a
/// deterministic function of its arguments.
pub uninterp spec fn associated_token_address(
    wallet: Seq<u8>,
    mint: Seq<u8>,
    token_program: Seq<u8>,
) -> Seq<u8>;

/// Relies on `spl_associated_token_account::get_associated_token_address_with_program_id`:
/// it derives the wallet's associated token account for a mint under a token
/// program, a deterministic function of its arguments. It aborts in the
/// statistically unreachable event that no bump discriminant yields an
/// off-curve address.
#[verifier::external_body]
pub fn get_associated_token_address(
    wallet: &Address,
    mint: &Address,
    token_program: &Address,
) -> (r: Address)
    ensures
        r@ == associated_token_address(wallet@, mint@, token_program@),
{
    let pk = spl_associated_token_account::get_associated_token_address_with_program_id(
        &solana_program::pubkey::Pubkey::new_from_array(wallet.bytes),
        &solana_program::pubkey::Pubkey::new_from_array(mint.bytes),
        &solana_program::pubkey::Pubkey::new_from_array(token_program.bytes),
    );
    Address { bytes: pk.to_bytes() }
}

} // verus!
