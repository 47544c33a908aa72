//! The single bridge to the process-wide random number generator.
//! Every random draw the library makes goes through here.

use vstd::prelude::*;

verus! {

/// Relies on rand::random_range over an inclusive `i64` range: it
/// returns a uniformly distributed value inside the range, drawn from
/// the thread-local generator, and panics only on an empty range,
/// which the precondition rules out. Nothing beyond membership in the
/// range is assumed of the draw.
#[verifier::external_body]
pub(crate) fn random_in_range(lo: i64, hi: i64) -> (r: i64)
    requires
        lo <= hi,
    ensures
        lo <= r <= hi,
{
    rand::random_range(lo..=hi)
}

} // verus!
