//! The protocol's hash function and the domain separator built from it.
//!
//! Request identities, replay-record seeds and domain separators are all
//! 32-byte digests of byte strings.

use vstd::prelude::*;
use crate::address::Address;

verus! {

/// What the platform's hash function returns for a byte string: a 32-byte
/// digest, a deterministic function of the bytes alone.
pub uninterp spec fn sha256_of(data: Seq<u8>) -> Seq<u8>;

/// Relies on `solana_sha256_hasher::hash` (re-exported by `solana_program`
/// as `hash::hash`): the SHA-256 digest of the input bytes, a deterministic
/// function of the bytes alone, 32 bytes long.
#[verifier::external_body]
pub fn sha256(data: &[u8]) -> (r: [u8; 32])
    ensures
        r@ == sha256_of(data@),
{
    solana_program::hash::hash(data).to_bytes()
}

/// The digest of the concatenated name, version, chain identifier and
/// deployment identity: the domain separator that ties a signed request to
/// one deployment.
pub open spec fn spec_domain_separator(
    name: Seq<u8>,
    version: Seq<u8>,
    chain_id: Seq<u8>,
    program_id: Seq<u8>,
) -> Seq<u8> {
    sha256_of(name + version + chain_id + program_id)
}

/// Computes the expected domain separator hash for a deployment.
///
/// Combines the protocol name, version, chain identifier and program
/// identity into a single digest, so a request signed for one deployment
/// cannot be replayed against another.
pub fn create_domain_separator(
    name: &[u8],
    version: &[u8],
    chain_id: &[u8],
    program_id: &Address,
) -> (r: [u8; 32])
    ensures
        r@ == spec_domain_separator(name@, version@, chain_id@, program_id@),
{
    let mut data: Vec<u8> = Vec::new();
    data.extend_from_slice(name);
    data.extend_from_slice(version);
    data.extend_from_slice(chain_id);
    data.extend_from_slice(program_id.as_bytes());
    proof {
        assert(data@ =~= name@ + version@ + chain_id@ + program_id@);
    }
    sha256(data.as_slice())
}

} // verus!
