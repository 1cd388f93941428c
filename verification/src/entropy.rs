//! Trusted access to the shared random source.

use vstd::prelude::*;

verus! {

/// The thread-local random source of the rand crate, opaque to the proofs.
#[verifier::external_type_specification]
#[verifier::external_body]
pub struct ExThreadRng(rand::rngs::ThreadRng);

/// Whether a byte is one of the ASCII characters 0-9, A-Z or a-z.
pub open spec fn is_ascii_alphanumeric_byte(b: u8) -> bool {
    (48 <= b && b <= 57) || (65 <= b && b <= 90) || (97 <= b && b <= 122)
}

/// Relies on rand::Rng::gen_range on a half-open u64 range: it panics on
/// an empty range and otherwise returns a member of the range.
#[verifier::external_body]
pub(crate) fn gen_range_u64(rng: &mut rand::rngs::ThreadRng, lo: u64, hi: u64) -> (r: u64)
    requires
        lo < hi,
    ensures
        lo <= r < hi,
{
    rand::Rng::gen_range(rng, lo..hi)
}

/// Relies on rand's Alphanumeric distribution: every sample is one of the
/// ASCII bytes 0-9, A-Z, a-z, drawn uniformly.
#[verifier::external_body]
pub(crate) fn sample_alphanumeric(rng: &mut rand::rngs::ThreadRng) -> (r: u8)
    ensures
        is_ascii_alphanumeric_byte(r),
{
    rand::Rng::sample(rng, rand::distributions::Alphanumeric)
}

} // verus!
