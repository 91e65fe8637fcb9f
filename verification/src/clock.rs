//! The clock that frames are timed with.

use vstd::prelude::*;

verus! {

/// Reads the high-resolution counter of the `time` crate,
/// `time::precise_time_ns`: nanoseconds since an epoch that the crate leaves
/// open. Nothing is claimed of the reading. Two readings need not differ, and
/// no order between them is promised here.
#[verifier::external_body]
pub(crate) fn precise_nanos() -> (now: u64) {
    time::precise_time_ns()
}

} // verus!
