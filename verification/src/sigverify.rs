//! Verification of the co-located signature-check instruction.
//!
//! The host environment verifies ed25519 signatures in a dedicated program
//! that runs before this engine; the engine only inspects the bytes of that
//! already-verified instruction and confirms that it attests exactly one
//! signature, by exactly the configured allocator, over exactly the hash of
//! the expected transfer request. The strict fixed 144-byte layout is
//! enforced, with the index fields pinned to their wildcard sentinels so a
//! signature cannot be smuggled in from another instruction's data. An
//! older, looser reading — any length from 99 bytes on, without the
//! header-field validation — is the weaker invariant and is deliberately
//! not accepted.

use vstd::prelude::*;
use crate::address::Address;
use crate::address::ED25519_PROGRAM_ID;
use crate::address::bytes32_eq;
use crate::codec::TransferRequest;
use crate::codec::spec_request_hash;
use crate::codec::spec_serialize;
use crate::errors::CustomError;

verus! {

broadcast use vstd::array::group_array_axioms, vstd::slice::axiom_spec_len;

/// A platform instruction, reduced to what the byte inspection reads: which
/// program it targets, how many accounts it references, and its data.
pub struct SignatureInstruction {
    /// The program the instruction targets.
    pub program_id: Address,
    /// How many accounts the instruction references.
    pub account_count: usize,
    /// The instruction's data bytes.
    pub data: Vec<u8>,
}

/// The little-endian 16-bit value at an offset, as a mathematical integer.
pub open spec fn le16(s: Seq<u8>, i: int) -> int {
    s[i] + 256 * s[i + 1]
}

/// The fixed header of the strict 144-byte signature-check layout: one
/// signature, no padding, the signature at offset 48, the public key at
/// offset 16, and every cross-instruction index pinned to the wildcard
/// sentinel.
pub open spec fn header_ok(d: Seq<u8>) -> bool {
    &&& d[0] == 1u8
    &&& d[1] == 0u8
    &&& le16(d, 2) == 48
    &&& le16(d, 4) == 0xffff
    &&& le16(d, 6) == 16
    &&& le16(d, 8) == 0xffff
    &&& le16(d, 14) == 0xffff
}

/// The message window named by the header lies inside the data.
pub open spec fn msg_bounds_ok(d: Seq<u8>) -> bool {
    le16(d, 10) + le16(d, 12) <= d.len()
}

/// The embedded public key equals the expected signer.
pub open spec fn signer_matches(d: Seq<u8>, signer: Seq<u8>) -> bool {
    d.subrange(16, 48) == signer
}

/// The embedded message equals the expected 32-byte digest.
pub open spec fn message_matches(d: Seq<u8>, digest: Seq<u8>) -> bool {
    d.subrange(le16(d, 10), le16(d, 10) + le16(d, 12)) == digest
}

/// The outcome of inspecting a signature-check instruction against an
/// expected signer and an expected request digest: the first violated check
/// wins.
pub open spec fn spec_validate_signature(
    ix: SignatureInstruction,
    signer: Seq<u8>,
    digest: Seq<u8>,
) -> Result<(), CustomError> {
    if ix.program_id@ != ED25519_PROGRAM_ID@ {
        Err(CustomError::MissingSignature)
    } else if ix.account_count != 0 || ix.data@.len() != 144 {
        Err(CustomError::MalformedEd25519Data)
    } else if !header_ok(ix.data@) {
        Err(CustomError::MalformedEd25519Data)
    } else if !msg_bounds_ok(ix.data@) {
        Err(CustomError::MalformedEd25519Data)
    } else if !signer_matches(ix.data@, signer) {
        Err(CustomError::AllocatorSignerMismatch)
    } else if !message_matches(ix.data@, digest) {
        Err(CustomError::MessageMismatch)
    } else {
        Ok(())
    }
}

/// Whether the bytes of `data` starting at `off` equal `expect`.
fn slice_eq_at(data: &[u8], off: usize, expect: &[u8]) -> (r: bool)
    requires
        off + expect@.len() <= data@.len(),
    ensures
        r == (data@.subrange(off as int, off + expect@.len()) == expect@),
{
    let n = data.len();
    let len = expect.len();
    let mut i: usize = 0;
    while i < len
        invariant
            i <= len == expect@.len(),
            off + len <= n == data@.len(),
            forall|j: int| 0 <= j < i ==> data@[off + j] == expect@[j],
        decreases len - i,
    {
        if data[off + i] != expect[i] {
            proof {
                assert(data@.subrange(off as int, off + expect@.len())[i as int] != expect@[i as int]);
            }
            return false;
        }
        i += 1;
    }
    proof {
        assert(data@.subrange(off as int, off + expect@.len()) =~= expect@);
    }
    true
}

/// The little-endian 16-bit value at an offset.
fn read_u16_le(data: &[u8], off: usize) -> (v: u16)
    requires
        off + 2 <= data@.len(),
    ensures
        v as int == le16(data@, off as int),
{
    let n = data.len();
    let lo = data[off] as u16;
    let hi = data[off + 1] as u16;
    lo + hi * 256
}

/// Validates an ed25519 signature-check instruction.
///
/// Confirms that the instruction targets the platform's signature-check
/// program, carries exactly one signature in the strict 144-byte layout,
/// embeds the expected signer's public key, and signs exactly the hash of
/// the expected transfer request. Returns the first violated check's error;
/// it never passes on a partial field match.
pub fn validate_ed25519_signature_instruction(
    signature_ix: &SignatureInstruction,
    expected_signer: &Address,
    expected_request: &TransferRequest,
) -> (r: Result<(), CustomError>)
    ensures
        r == spec_validate_signature(
            *signature_ix,
            expected_signer@,
            spec_request_hash(*expected_request),
        ),
{
    if !bytes32_eq(&signature_ix.program_id.bytes, &ED25519_PROGRAM_ID) {
        return Err(CustomError::MissingSignature);
    }
    let data = signature_ix.data.as_slice();
    if signature_ix.account_count != 0 || data.len() != 144 {
        return Err(CustomError::MalformedEd25519Data);
    }
    let num_signatures = data[0];
    let padding = data[1];
    let sig_off = read_u16_le(data, 2);
    let sig_idx = read_u16_le(data, 4);
    let pk_off = read_u16_le(data, 6);
    let pk_idx = read_u16_le(data, 8);
    let msg_off = read_u16_le(data, 10);
    let msg_len = read_u16_le(data, 12);
    let msg_idx = read_u16_le(data, 14);
    if !(num_signatures == 1 && padding == 0 && sig_off == 48 && sig_idx == 0xffff && pk_off == 16
        && pk_idx == 0xffff && msg_idx == 0xffff) {
        return Err(CustomError::MalformedEd25519Data);
    }
    if (msg_off as usize) + (msg_len as usize) > data.len() {
        return Err(CustomError::MalformedEd25519Data);
    }
    if !slice_eq_at(data, 16, expected_signer.as_bytes()) {
        return Err(CustomError::AllocatorSignerMismatch);
    }
    let expected_hash = expected_request.get_hash();
    let digest_matches = if msg_len == 32 {
        slice_eq_at(data, msg_off as usize, expected_hash.as_slice())
    } else {
        false
    };
    if !digest_matches {
        proof {
            if msg_len != 32 {
                assert(data@.subrange(le16(data@, 10), le16(data@, 10) + le16(data@, 12)).len()
                    != expected_hash@.len());
            }
        }
        return Err(CustomError::MessageMismatch);
    }
    Ok(())
}

/// The configuration-equivalent payload validation: instead of comparing
/// the raw digest bytes, parse the signed message as a request and compare
/// that request's hash with the expected one. It accepts exactly the
/// messages that are the wire format of a request with the expected hash.
pub fn message_attests_request(message: &[u8], expected: &TransferRequest) -> (r: bool)
    ensures
        r == exists|q: TransferRequest|
            message@ == spec_serialize(q) && spec_request_hash(q) == spec_request_hash(*expected),
{
    match TransferRequest::deserialize(message) {
        None => false,
        Some(parsed) => {
            let parsed_hash = parsed.get_hash();
            let expected_hash = expected.get_hash();
            let r = bytes32_eq(&parsed_hash, &expected_hash);
            proof {
                if r {
                    assert(message@ == spec_serialize(parsed) && spec_request_hash(parsed)
                        == spec_request_hash(*expected));
                } else {
                    assert forall|q: TransferRequest|
                        message@ == spec_serialize(q) implies spec_request_hash(q)
                        != spec_request_hash(*expected) by {
                        assert(spec_serialize(q) == spec_serialize(parsed));
                    }
                }
            }
            r
        },
    }
}

} // verus!
