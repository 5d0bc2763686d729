//! Stable identifiers for nodes, ports and cables in the surface domain.
//!
//! A `SurfaceId` carries the 128 bits of a ULID. Random identifiers come from
//! the `ulid` crate; deterministic ones are derived from a seed with BLAKE3.

use vstd::prelude::*;
use vstd::string::StringSliceAdditionalSpecFns;

verus! {

/// The value of a byte sequence read as a big-endian unsigned integer.
pub open spec fn be_value(bytes: Seq<u8>) -> nat
    decreases bytes.len(),
{
    if bytes.len() == 0 {
        0
    } else {
        be_value(bytes.drop_last()) * 256 + bytes.last() as nat
    }
}

/// The 32-byte BLAKE3 digest of `input`.
pub uninterp spec fn blake3_digest(input: Seq<u8>) -> Seq<u8>;

/// Calls `blake3::hash` and returns the 32 bytes of the digest.
/// The contract only names the digest: the same input gives the same bytes.
#[verifier::external_body]
fn blake3_hash(input: &[u8]) -> (out: [u8; 32])
    ensures
        out@ == blake3_digest(input@),
{
    *blake3::hash(input).as_bytes()
}

/// Calls `ulid::Ulid::from_bytes`, whose source is `Ulid(u128::from_be_bytes(bytes))`:
/// the contract states that the ULID's bits are the bytes read big-endian.
#[verifier::external_body]
fn ulid_from_bytes(bytes: [u8; 16]) -> (bits: u128)
    ensures
        bits as nat == be_value(bytes@),
{
    ulid::Ulid::from_bytes(bytes).0
}

/// Calls `ulid::Ulid::new`, which combines the current time with random bits.
/// Nothing is promised of the result.
#[verifier::external_body]
fn ulid_new() -> (bits: u128) {
    ulid::Ulid::new().0
}

/// The identifier that `SurfaceId::from_seed` derives from the seed's UTF-8 bytes:
/// the first 16 bytes of their BLAKE3 digest, read big-endian.
pub open spec fn seeded_id_bits(seed_bytes: Seq<u8>) -> nat {
    be_value(blake3_digest(seed_bytes).take(16))
}

/// A stable identifier used to track nodes, ports and cables between UI frames.
#[derive(Debug, Clone, Copy, PartialEq, Eq, Hash, Structural)]
pub struct SurfaceId(pub u128);

impl SurfaceId {
    /// A fresh identifier (time-ordered ULID with random bits).
    pub fn generate() -> (id: Self) {
        SurfaceId(ulid_new())
    }

    /// A deterministic identifier derived from `seed` with BLAKE3.
    pub fn from_seed(seed: &str) -> (id: Self)
        ensures
            id.0 as nat == seeded_id_bits(seed.spec_bytes()),
    {
        let h = blake3_hash(seed.as_bytes());
        let mut bytes = [0u8; 16];
        let mut i: usize = 0;
        while i < 16
            invariant
                0 <= i <= 16,
                h@.len() == 32,
                forall|j: int| 0 <= j < i ==> bytes@[j] == h@[j],
            decreases 16 - i,
        {
            bytes[i] = h[i];
            i = i + 1;
        }
        assert(bytes@ =~= h@.take(16));
        SurfaceId(ulid_from_bytes(bytes))
    }
}

/// Law: `from_seed` is a function of the seed alone — equal seeds give equal ids.
pub proof fn lemma_from_seed_deterministic(a: Seq<u8>, b: Seq<u8>)
    requires
        a == b,
    ensures
        seeded_id_bits(a) == seeded_id_bits(b),
{
}

} // verus!
