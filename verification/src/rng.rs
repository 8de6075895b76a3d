use vstd::prelude::*;

verus! {

/// Relies on rand::Rng::gen_range, called on rand::thread_rng, over the
/// half-open range lo..hi: the sample lies in [lo, hi), and the range must
/// not be empty (gen_range panics on an empty range).
#[verifier::external_body]
pub(crate) fn random_in_range(lo: i64, hi: i64) -> (r: i64)
    requires
        lo < hi,
    ensures
        lo <= r < hi,
{
    rand::Rng::gen_range(&mut rand::thread_rng(), lo..hi)
}

} // verus!
