use vstd::prelude::*;
use rand::Rng;

verus! {

/// Relies on rand::thread_rng and rand::Rng::gen_range: a draw from the
/// half-open range `lo..hi`, which is what world generation uses for biome
/// and placement choices.  gen_range panics on an empty range, so the empty
/// range is excluded here; nothing beyond membership in the range can be
/// promised of a random value.
#[verifier::external_body]
pub(crate) fn random_in_range(lo: i32, hi: i32) -> (r: i32)
    requires
        lo < hi,
    ensures
        lo <= r < hi,
{
    rand::thread_rng().gen_range(lo..hi)
}

} // verus!
