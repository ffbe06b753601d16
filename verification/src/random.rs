use rand::Rng;
use vstd::prelude::*;

verus! {

/// Draws an integer from `[low, high)`: calls `rand::Rng::gen_range` on the
/// thread's generator, which `rand::thread_rng` hands out.
///
/// Trusted, not proved: the value drawn is at least `low` and less than
/// `high`, as `gen_range` documents and as its sampling for the primitive
/// integer types shows. `gen_range` panics when `low >= high`, so the
/// contract leaves that input out. Which value of the range comes back is
/// left open: two calls with the same bounds may differ.
#[verifier::external_body]
pub(crate) fn gen_range(low: u64, high: u64) -> (r: u64)
    requires
        low < high,
    ensures
        low <= r < high,
{
    rand::thread_rng().gen_range(low, high)
}

} // verus!
