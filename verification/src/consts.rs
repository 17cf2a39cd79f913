//! Constants.
use vstd::prelude::*;

verus! {

/// If this is `true`, the digests in package IDs are replaced by `stub`, which makes the IDs
/// predictable.
pub const STUB_HASHES: bool = false;

/// How many hex digits of a digest a package ID holds at most.
pub const ID_DIGEST_LEN_MAX: usize = 24;

/// How old, in milliseconds, a package in the cache may get before it is thrown out: one week.
pub const MAX_CACHE_AGE_MS: u128 = 604_800_000;

/// How many bytes can be digested at most: the digest counts its input in bits, in a `u64`.
pub const DIGEST_INPUT_MAX: u64 = 0x1fff_ffff_ffff_ffff;

} // verus!
