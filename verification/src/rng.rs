//! The one randomness source of the core: a uniform draw used for the
//! vertical gap offset of each spawned obstacle pair.

use vstd::prelude::*;

use rand::Rng;

verus! {

/// Relies on rand::Rng::gen_range over the half-open range `lo..hi`: it
/// panics only on an empty range, and returns a value inside the range.
/// Nothing more is assumed of the draw.
#[verifier::external_body]
pub(crate) fn gen_range_i64(lo: i64, hi: i64) -> (r: i64)
    requires
        lo < hi,
    ensures
        lo <= r < hi,
{
    rand::thread_rng().gen_range(lo..hi)
}

} // verus!
