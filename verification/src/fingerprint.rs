//! Content-derived package identity.
//!
//! A fingerprint is a pure function of a package's bytes: two identical
//! byte streams always carry the same fingerprint. It serves only as an
//! identity token for caching decisions, never as a cryptographic measure.

use vstd::prelude::*;

verus! {

/// Initial accumulator of the byte fold.
pub const FINGERPRINT_SEED: u64 = 0xcbf29ce484222325;

/// Multiplier of the byte fold.
pub const FINGERPRINT_PRIME: u64 = 0x100000001b3;

/// One step of the byte fold: mix a byte in, then stir, wrapping on
/// overflow.
pub open spec fn spec_fingerprint_step(acc: u64, b: u8) -> u64 {
    vstd::wrapping::u64_specs::wrapping_mul(acc ^ (b as u64), FINGERPRINT_PRIME)
}

/// The fingerprint of a byte sequence: the fold of every byte, in order,
/// over the fixed seed.
pub open spec fn spec_fingerprint(bytes: Seq<u8>) -> u64
    decreases bytes.len(),
{
    if bytes.len() == 0 {
        FINGERPRINT_SEED
    } else {
        spec_fingerprint_step(
            spec_fingerprint(bytes.take(bytes.len() - 1)),
            bytes[bytes.len() - 1],
        )
    }
}

/// Opaque content-derived identity of a package.
#[derive(Clone, Copy, PartialEq, Eq, Structural, Debug)]
pub struct Fingerprint {
    pub value: u64,
}

impl Fingerprint {
    /// Computes the fingerprint of a package's bytes. Equal byte streams
    /// yield equal fingerprints, because the result is a function of the
    /// bytes alone.
    pub fn compute(bytes: &Vec<u8>) -> (r: Fingerprint)
        ensures
            r.value == spec_fingerprint(bytes@),
    {
        let mut acc: u64 = FINGERPRINT_SEED;
        let mut i: usize = 0;
        while i < bytes.len()
            invariant
                i <= bytes@.len(),
                acc == spec_fingerprint(bytes@.take(i as int)),
            decreases bytes@.len() - i,
        {
            proof {
                let p = bytes@.take(i + 1);
                assert(p.take(p.len() - 1) =~= bytes@.take(i as int));
                assert(p[p.len() - 1] == bytes@[i as int]);
            }
            acc = (acc ^ (bytes[i] as u64)).wrapping_mul(FINGERPRINT_PRIME);
            i += 1;
        }
        proof {
            assert(bytes@.take(i as int) =~= bytes@);
        }
        Fingerprint { value: acc }
    }

    /// The raw identity value.
    pub fn get_value(&self) -> (r: u64)
        ensures
            r == self.value,
    {
        self.value
    }
}

} // verus!
