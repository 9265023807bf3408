use vstd::prelude::*;

use crate::error::ErrorKind;
use crate::state::Distribution;

verus! {

/// Reports whether the claim phase could begin now.
///
/// The claim window opens by itself once the adjusted clock reaches
/// `registration_end_ts`; no administrative action flips a flag, and the
/// distributable pool is fixed by the first claim, not here. This probe is
/// kept for callers of the historical explicit transition: it answers
/// whether the window is open and no claim has fixed the pool yet, and
/// mutates nothing.
pub fn start_claim_phase(distribution: &Distribution, now: i64) -> (r: Result<(), ErrorKind>)
    requires
        distribution.clock_in_bounds(now),
    ensures
        !distribution.in_claim_phase_at(now)
            <==> r == Err::<(), ErrorKind>(ErrorKind::TooEarlyForClaimPhase),
        distribution.in_claim_phase_at(now) && distribution.claim_count > 0
            <==> r == Err::<(), ErrorKind>(ErrorKind::ClaimPhaseAlreadyStarted),
        r is Ok <==> distribution.in_claim_phase_at(now) && distribution.claim_count == 0,
{
    if !distribution.in_claim_phase(now) {
        return Err(ErrorKind::TooEarlyForClaimPhase);
    }
    if distribution.claim_count > 0 {
        return Err(ErrorKind::ClaimPhaseAlreadyStarted);
    }
    Ok(())
}

} // verus!
