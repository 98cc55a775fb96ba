//! Account identities and the protocol's well-known keys.
//!
//! Every participant — owner, allocator, depositor, recipient, mint, program —
//! is identified by a 32-byte key. The protocol additionally owns derived
//! addresses (the vault and the per-order deposit addresses) for which no
//! private key exists; those are produced in `derive`.

use vstd::prelude::*;

verus! {

broadcast use vstd::array::group_array_axioms;

/// A 32-byte account identity (a public key or a derived address).
#[derive(Clone, Copy, Debug, PartialEq, Eq)]
pub struct Address {
    pub bytes: [u8; 32],
}

impl View for Address {
    type V = Seq<u8>;

    open spec fn view(&self) -> Seq<u8> {
        self.bytes@
    }
}

/// The only identity allowed to run `initialize`
/// (the key `7LZXYdDQcRTsXnL9EU2zGkninV3yJsqX43m4RMPbs68u`).
pub const AUTHORIZED_PUBKEY: [u8; 32] = [
    94, 40, 239, 87, 14, 138, 237, 158, 206, 248, 168, 159, 92, 26, 144, 115, 144, 128, 192, 93,
    249, 233, 200, 202, 8, 35, 118, 239, 147, 160, 43, 46,
];

/// The identity of the platform's ed25519 signature-check program
/// (`Ed25519SigVerify111111111111111111111111111`).
pub const ED25519_PROGRAM_ID: [u8; 32] = [
    3, 125, 70, 214, 124, 147, 251, 190, 18, 249, 66, 143, 131, 141, 64, 255, 5, 112, 116, 73, 39,
    244, 138, 100, 252, 202, 112, 68, 128, 0, 0, 0,
];

/// The identity of the legacy token program
/// (`TokenkegQfeZyiNwAJbNbGKPFXCWuBvf9Ss623VQ5DA`).
pub const TOKEN_PROGRAM_ID: [u8; 32] = [
    6, 221, 246, 225, 215, 101, 161, 147, 217, 203, 225, 70, 206, 235, 121, 172, 28, 180, 133, 237,
    95, 91, 55, 145, 58, 140, 245, 133, 126, 255, 0, 169,
];

/// The identity of the extensions-capable token program
/// (`TokenzQdBNbLqP5VEhdkAS6EPFLC1PHnBqCXEpPxuEb`).
pub const TOKEN_2022_PROGRAM_ID: [u8; 32] = [
    6, 221, 246, 225, 238, 117, 143, 222, 24, 66, 93, 188, 228, 108, 205, 218, 182, 26, 252, 77,
    131, 185, 13, 39, 254, 189, 249, 40, 216, 161, 139, 252,
];

/// The bytes of `"relay_depository"`, the seed of the configuration address.
pub const RELAY_DEPOSITORY_SEED: [u8; 16] = [
    114, 101, 108, 97, 121, 95, 100, 101, 112, 111, 115, 105, 116, 111, 114, 121,
];

/// The bytes of `"used_request"`, the seed prefix of replay-record addresses.
pub const USED_REQUEST_SEED: [u8; 12] = [117, 115, 101, 100, 95, 114, 101, 113, 117, 101, 115, 116];

/// The bytes of `"vault"`, the seed of the vault address.
pub const VAULT_SEED: [u8; 5] = [118, 97, 117, 108, 116];

/// The bytes of `"RelayDepository"`, the protocol name bound into the domain
/// separator.
pub const DOMAIN_NAME: [u8; 15] = [
    82, 101, 108, 97, 121, 68, 101, 112, 111, 115, 105, 116, 111, 114, 121,
];

/// The bytes of `"1"`, the protocol version bound into the domain separator.
pub const DOMAIN_VERSION: [u8; 1] = [49];

/// The bytes of `"config"`, the seed of the deposit-address configuration.
pub const CONFIG_SEED: [u8; 6] = [99, 111, 110, 102, 105, 103];

/// The bytes of `"deposit_address"`, the seed prefix of per-order holding
/// addresses.
pub const DEPOSIT_ADDRESS_SEED: [u8; 15] = [
    100, 101, 112, 111, 115, 105, 116, 95, 97, 100, 100, 114, 101, 115, 115,
];

/// The bytes of `"allowed_program"`, the seed prefix of allow-list records.
pub const ALLOWED_PROGRAM_SEED: [u8; 15] = [
    97, 108, 108, 111, 119, 101, 100, 95, 112, 114, 111, 103, 114, 97, 109,
];

/// Copies a fixed-size byte array into a growable vector.
pub fn bytes_to_vec<const N: usize>(a: &[u8; N]) -> (r: Vec<u8>)
    ensures
        r@ == a@,
{
    let mut v: Vec<u8> = Vec::new();
    let mut i: usize = 0;
    while i < N
        invariant
            i <= N,
            v@.len() == i,
            forall|j: int| 0 <= j < i ==> v@[j] == a@[j],
        decreases N - i,
    {
        v.push(a[i]);
        i += 1;
    }
    proof {
        assert(v@ =~= a@);
    }
    v
}

/// A vector of thirty-two zero bytes: the identity a native (non-token)
/// target contributes to a seed tuple.
pub fn zero_bytes32() -> (r: Vec<u8>)
    ensures
        r@ == zero32(),
{
    let mut v: Vec<u8> = Vec::new();
    let mut i: usize = 0;
    while i < 32
        invariant
            i <= 32,
            v@.len() == i,
            forall|j: int| 0 <= j < i ==> v@[j] == 0u8,
        decreases 32 - i,
    {
        v.push(0u8);
        i += 1;
    }
    proof {
        assert(v@ =~= zero32());
    }
    v
}

/// Thirty-two zero bytes.
pub open spec fn zero32() -> Seq<u8> {
    Seq::new(32, |i: int| 0u8)
}

/// Whether two 32-byte keys are equal, compared without an early exit: the
/// loop always walks all thirty-two bytes, so a mismatch's position leaks
/// nothing through timing.
pub fn bytes32_eq(a: &[u8; 32], b: &[u8; 32]) -> (r: bool)
    ensures
        r == (a@ == b@),
{
    let mut diff: u8 = 0;
    let mut i: usize = 0;
    while i < 32
        invariant
            i <= 32,
            diff == 0 <==> (forall|j: int| 0 <= j < i ==> a@[j] == b@[j]),
        decreases 32 - i,
    {
        let x = a[i];
        let y = b[i];
        proof {
            assert((diff | (x ^ y)) == 0 <==> diff == 0 && x == y) by (bit_vector);
        }
        diff = diff | (x ^ y);
        i += 1;
    }
    proof {
        if diff == 0 {
            assert(a@ =~= b@);
        }
    }
    diff == 0
}

impl Address {
    /// The key bytes, as a slice.
    pub fn as_bytes(&self) -> (r: &[u8])
        ensures
            r@ == self@,
    {
        self.bytes.as_slice()
    }

    /// Whether two identities are the same key, byte for byte.
    pub fn eq_bytes(&self, other: &Address) -> (r: bool)
        ensures
            r == (self@ == other@),
            r == (*self == *other),
    {
        let r = bytes32_eq(&self.bytes, &other.bytes);
        proof {
            if self.bytes@ == other.bytes@ {
                assert(self.bytes =~= other.bytes);
            }
        }
        r
    }
}

} // verus!
