//! Picking a face at random.

use vstd::prelude::*;
use crate::kind::SmileType;

verus! {

/// Calls `rand::random_range` on the range below `bound`, which samples the
/// thread's generator. The call panics on an empty range, so `bound` is
/// positive; what comes back lies in the range.
#[verifier::external_body]
fn random_below(bound: usize) -> (r: usize)
    requires
        bound > 0,
    ensures
        r < bound,
{
    rand::random_range(..bound)
}

impl SmileType {
    /// A face drawn at random: whichever position of the declaration order
    /// the generator picks, the face that stands there.
    pub fn random() -> (r: SmileType)
        ensures
            SmileType::all_spec().contains(r),
    {
        let at: usize = random_below(SmileType::COUNT);
        SmileType::get(at).unwrap()
    }
}

} // verus!
