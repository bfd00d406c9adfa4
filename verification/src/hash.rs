//! The hash that tells two memory images apart.

use std::hash::Hasher;
use twox_hash::XxHash64;
use vstd::prelude::*;

verus! {

/// The 64-bit XXH64 digest of `bytes` under `seed`.
pub uninterp spec fn xxh64_digest(seed: u64, bytes: Seq<u8>) -> u64;

/// The digest that `twox_hash::XxHash64` gives: a hasher made by
/// `XxHash64::with_seed(seed)` takes all of `bytes` in one `write` and is read
/// by `finish`. The digest depends on the seed and the bytes alone; nothing
/// else is claimed of it.
#[verifier::external_body]
fn xxh64(seed: u64, bytes: &[u8]) -> (digest: u64)
    ensures
        digest == xxh64_digest(seed, bytes@),
{
    let mut hasher = XxHash64::with_seed(seed);
    hasher.write(bytes);
    hasher.finish()
}

/// The hash of a memory image: its XXH64 digest under seed 0.
pub open spec fn memory_hash_of(memory: Seq<u8>) -> u64 {
    xxh64_digest(0, memory)
}

/// The hash of the memory image `memory`.
pub fn calculate_memory_hash(memory: &[u8]) -> (hash: u64)
    ensures
        hash == memory_hash_of(memory@),
{
    xxh64(0, memory)
}

} // verus!
