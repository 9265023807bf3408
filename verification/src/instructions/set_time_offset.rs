use vstd::prelude::*;

use crate::state::Distribution;

verus! {

/// Debug-only clock skew: sets the offset added to the real clock so test
/// harnesses can move a distribution forward in time. The runtime shell
/// must gate this behind the distribution's admin; it is not part of the
/// design's correctness argument and must stay zero in production.
pub fn set_time_offset(distribution: &mut Distribution, time_offset: i64)
    ensures
        *final(distribution) == (Distribution { time_offset, ..*old(distribution) }),
{
    distribution.time_offset = time_offset;
}

} // verus!
