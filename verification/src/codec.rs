//! The transfer request and its wire format.
//!
//! A transfer request is the payload the allocator signs. Its identity — for
//! replay protection and for the signature check — is the digest of its
//! serialized bytes, so the wire format is pinned down exactly: each field in
//! declaration order, integers little-endian, the optional token as a one-byte
//! tag followed by the mint key when present.

use vstd::prelude::*;
use crate::address::Address;
use crate::hashing::sha256;
use crate::hashing::sha256_of;

verus! {

broadcast use vstd::array::group_array_axioms, vstd::slice::axiom_spec_len;

/// A transfer request signed by the allocator.
#[derive(Clone, Copy, Debug, PartialEq, Eq)]
pub struct TransferRequest {
    /// The domain separator of the deployment the request is meant for.
    pub domain: [u8; 32],
    /// The recipient of the transfer.
    pub recipient: Address,
    /// The transfer target: `None` for native value, `Some(mint)` for a
    /// token.
    pub token: Option<Address>,
    /// The amount to transfer.
    pub amount: u64,
    /// A unique nonce.
    pub nonce: u64,
    /// The timestamp from which the request is no longer valid.
    pub expiration: i64,
}

/// The little-endian bytes of a 64-bit value.
pub open spec fn u64_le_bytes(v: u64) -> Seq<u8> {
    seq![
        (v & 0xff) as u8,
        ((v >> 8) & 0xff) as u8,
        ((v >> 16) & 0xff) as u8,
        ((v >> 24) & 0xff) as u8,
        ((v >> 32) & 0xff) as u8,
        ((v >> 40) & 0xff) as u8,
        ((v >> 48) & 0xff) as u8,
        ((v >> 56) & 0xff) as u8,
    ]
}

/// The little-endian bytes of a signed 64-bit value (two's complement).
pub open spec fn i64_le_bytes(v: i64) -> Seq<u8> {
    u64_le_bytes(v as u64)
}

/// The encoding of the optional transfer target: a zero tag for native, a
/// one tag followed by the mint key for a token.
pub open spec fn token_enc(token: Option<Address>) -> Seq<u8> {
    match token {
        None => seq![0u8],
        Some(mint) => seq![1u8] + mint@,
    }
}

/// The wire format of a request: each field in declaration order.
pub open spec fn spec_serialize(r: TransferRequest) -> Seq<u8> {
    r.domain@ + r.recipient@ + token_enc(r.token) + u64_le_bytes(r.amount) + u64_le_bytes(r.nonce)
        + i64_le_bytes(r.expiration)
}

/// The length of a native request's encoding.
pub const NATIVE_ENCODING_LEN: usize = 89;

/// The length of a token request's encoding.
pub const TOKEN_ENCODING_LEN: usize = 121;

/// The identity of a request: the digest of its wire format.
pub open spec fn spec_request_hash(r: TransferRequest) -> Seq<u8> {
    sha256_of(spec_serialize(r))
}

/// Every encoding is 89 bytes with a zero tag at offset 64 (native) or 121
/// bytes with a one tag at offset 64 (token).
pub proof fn lemma_encoding_shape(r: TransferRequest)
    ensures
        r.token is None ==> spec_serialize(r).len() == NATIVE_ENCODING_LEN && spec_serialize(r)[64]
            == 0u8,
        r.token is Some ==> spec_serialize(r).len() == TOKEN_ENCODING_LEN && spec_serialize(r)[64]
            == 1u8,
{
}

/// Appends the little-endian bytes of a 64-bit value.
fn push_u64_le(out: &mut Vec<u8>, v: u64)
    ensures
        final(out)@ == old(out)@ + u64_le_bytes(v),
{
    out.push((v & 0xff) as u8);
    out.push(((v >> 8) & 0xff) as u8);
    out.push(((v >> 16) & 0xff) as u8);
    out.push(((v >> 24) & 0xff) as u8);
    out.push(((v >> 32) & 0xff) as u8);
    out.push(((v >> 40) & 0xff) as u8);
    out.push(((v >> 48) & 0xff) as u8);
    out.push(((v >> 56) & 0xff) as u8);
    proof {
        assert(out@ =~= old(out)@ + u64_le_bytes(v));
    }
}

/// Reads the little-endian 64-bit value at an offset.
fn read_u64_le(bytes: &[u8], off: usize) -> (v: u64)
    requires
        off + 8 <= bytes@.len(),
    ensures
        u64_le_bytes(v) == bytes@.subrange(off as int, off + 8),
{
    let v: u64 = (bytes[off] as u64) | ((bytes[off + 1] as u64) << 8) | ((bytes[off + 2] as u64)
        << 16) | ((bytes[off + 3] as u64) << 24) | ((bytes[off + 4] as u64) << 32) | ((bytes[off
        + 5] as u64) << 40) | ((bytes[off + 6] as u64) << 48) | ((bytes[off + 7] as u64) << 56);
    proof {
        let b0 = bytes@[off as int];
        let b1 = bytes@[off + 1];
        let b2 = bytes@[off + 2];
        let b3 = bytes@[off + 3];
        let b4 = bytes@[off + 4];
        let b5 = bytes@[off + 5];
        let b6 = bytes@[off + 6];
        let b7 = bytes@[off + 7];
        assert((v & 0xff) as u8 == b0 && ((v >> 8) & 0xff) as u8 == b1 && ((v >> 16) & 0xff) as u8
            == b2 && ((v >> 24) & 0xff) as u8 == b3 && ((v >> 32) & 0xff) as u8 == b4 && ((v >> 40)
            & 0xff) as u8 == b5 && ((v >> 48) & 0xff) as u8 == b6 && ((v >> 56) & 0xff) as u8 == b7)
            by (bit_vector)
            requires
                v == (b0 as u64) | ((b1 as u64) << 8) | ((b2 as u64) << 16) | ((b3 as u64) << 24)
                    | ((b4 as u64) << 32) | ((b5 as u64) << 40) | ((b6 as u64) << 48) | ((
                b7 as u64) << 56),
        ;
        assert(u64_le_bytes(v) =~= bytes@.subrange(off as int, off + 8));
    }
    v
}

/// Copies the 32 bytes at an offset into a fixed array.
fn read_bytes32(bytes: &[u8], off: usize) -> (r: [u8; 32])
    requires
        off + 32 <= bytes@.len(),
    ensures
        r@ == bytes@.subrange(off as int, off + 32),
{
    let n = bytes.len();
    let mut r: [u8; 32] = [0; 32];
    let mut i: usize = 0;
    while i < 32
        invariant
            i <= 32,
            off + 32 <= n == bytes@.len(),
            forall|j: int| 0 <= j < i ==> r@[j] == bytes@[off + j],
        decreases 32 - i,
    {
        r[i] = bytes[off + i];
        i += 1;
    }
    proof {
        assert(r@ =~= bytes@.subrange(off as int, off + 32));
    }
    r
}

impl TransferRequest {
    /// Serializes the request into its wire format.
    pub fn serialize(&self) -> (out: Vec<u8>)
        ensures
            out@ == spec_serialize(*self),
    {
        let mut out: Vec<u8> = Vec::new();
        out.extend_from_slice(self.domain.as_slice());
        out.extend_from_slice(self.recipient.as_bytes());
        match &self.token {
            None => out.push(0u8),
            Some(mint) => {
                out.push(1u8);
                out.extend_from_slice(mint.as_bytes());
            },
        }
        push_u64_le(&mut out, self.amount);
        push_u64_le(&mut out, self.nonce);
        push_u64_le(&mut out, self.expiration as u64);
        proof {
            assert(out@ =~= spec_serialize(*self));
        }
        out
    }

    /// Parses a wire-format byte string back into a request.
    ///
    /// Returns the unique request whose encoding is the input, or `None`
    /// when the input is the encoding of no request.
    pub fn deserialize(bytes: &[u8]) -> (r: Option<TransferRequest>)
        ensures
            match r {
                Some(req) => bytes@ == spec_serialize(req),
                None => forall|req: TransferRequest| bytes@ != spec_serialize(req),
            },
    {
        let n = bytes.len();
        if n != NATIVE_ENCODING_LEN && n != TOKEN_ENCODING_LEN {
            proof {
                assert forall|req: TransferRequest| bytes@ != spec_serialize(req) by {
                    lemma_encoding_shape(req);
                }
            }
            return None;
        }
        let tag = bytes[64];
        let native = tag == 0 && n == NATIVE_ENCODING_LEN;
        let token = tag == 1 && n == TOKEN_ENCODING_LEN;
        if !native && !token {
            proof {
                assert forall|req: TransferRequest| bytes@ != spec_serialize(req) by {
                    lemma_encoding_shape(req);
                }
            }
            return None;
        }
        let domain = read_bytes32(bytes, 0);
        let recipient = Address { bytes: read_bytes32(bytes, 32) };
        let (token, tail): (Option<Address>, usize) = if native {
            (None, 65)
        } else {
            (Some(Address { bytes: read_bytes32(bytes, 65) }), 97)
        };
        let amount = read_u64_le(bytes, tail);
        let nonce = read_u64_le(bytes, tail + 8);
        let raw_expiration = read_u64_le(bytes, tail + 16);
        let expiration = raw_expiration as i64;
        let req = TransferRequest { domain, recipient, token, amount, nonce, expiration };
        proof {
            assert(raw_expiration as i64 as u64 == raw_expiration) by (bit_vector);
            assert(bytes@ =~= spec_serialize(req));
        }
        Some(req)
    }

    /// Computes the identity of the request: the digest of its wire format,
    /// used for signature verification and replay tracking.
    pub fn get_hash(&self) -> (h: [u8; 32])
        ensures
            h@ == spec_request_hash(*self),
    {
        let encoded = self.serialize();
        sha256(encoded.as_slice())
    }
}

/// Round trip: a request's wire format parses back to a request with the
/// same wire format, so the identity of what was sent and the identity of
/// what is read back are one digest.
pub proof fn lemma_round_trip(r: TransferRequest, parsed: Option<TransferRequest>)
    requires
        match parsed {
            Some(q) => spec_serialize(r) == spec_serialize(q),
            None => forall|q: TransferRequest| spec_serialize(r) != spec_serialize(q),
        },
    ensures
        parsed is Some,
        sha256_of(spec_serialize(parsed->Some_0)) == sha256_of(spec_serialize(r)),
{
}

} // verus!
