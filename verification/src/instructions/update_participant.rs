use vstd::prelude::*;

use crate::error::ErrorKind;
use crate::state::{participant_update_step, Distribution, Participant};

verus! {

/// Refreshes a registered participant's weight from the stake registrar
/// and folds the change into the distribution's aggregate.
///
/// `oracle_weight` is the stake registrar's fresh answer, as in
/// participant creation. Because weight is the portion of deposits
/// guaranteed to stay locked through `weight_ts`, and updates happen
/// strictly before `weight_ts`, a correct registrar can only report the
/// same or more than before: a lower answer is rejected as a consistency
/// violation. The aggregate is adjusted by subtracting the old weight and
/// adding the new one back.
///
/// Fails, leaving both records unchanged, when the registration window has
/// closed, when the registrar failed, when the computed weight is zero, or
/// when it would lower the recorded weight.
pub fn update_participant(
    distribution: &mut Distribution,
    participant: &mut Participant,
    oracle_weight: Option<u64>,
    now: i64,
) -> (r: Result<(), ErrorKind>)
    requires
        old(distribution).clock_in_bounds(now),
        old(participant).weight <= old(distribution).participant_total_weight,
        old(distribution).participant_total_weight + u64::MAX <= u128::MAX,
    ensures
        r is Err ==> *final(distribution) == *old(distribution)
            && *final(participant) == *old(participant),
        !old(distribution).in_registration_phase_at(now)
            <==> r == Err::<(), ErrorKind>(ErrorKind::TooLateToRegister),
        old(distribution).in_registration_phase_at(now) && oracle_weight is None
            <==> r == Err::<(), ErrorKind>(ErrorKind::VoterStakeRegistryError),
        old(distribution).in_registration_phase_at(now) && oracle_weight == Some(0u64)
            <==> r == Err::<(), ErrorKind>(ErrorKind::NoLockedVoteWeight),
        (old(distribution).in_registration_phase_at(now)
            && oracle_weight is Some && oracle_weight != Some(0u64)
            && oracle_weight->0 < old(participant).weight)
            <==> r == Err::<(), ErrorKind>(ErrorKind::WeightMustNotDecrease),
        r is Ok <==> old(distribution).in_registration_phase_at(now)
            && oracle_weight is Some && oracle_weight != Some(0u64)
            && oracle_weight->0 >= old(participant).weight,
        r is Ok ==> {
            let weight = oracle_weight->0;
            &&& *final(participant) == (Participant { weight, ..*old(participant) })
            &&& *final(distribution) == (Distribution {
                participant_total_weight: (old(distribution).participant_total_weight
                    - old(participant).weight + weight) as u128,
                ..*old(distribution)
            })
            &&& final(participant).weight >= old(participant).weight
            &&& participant_update_step(*old(participant), *final(participant))
        },
{
    if !distribution.in_registration_phase(now) {
        return Err(ErrorKind::TooLateToRegister);
    }

    let weight = distribution.voter_weight(oracle_weight)?;
    if weight == 0 {
        return Err(ErrorKind::NoLockedVoteWeight);
    }

    // A guaranteed-locked weight cannot shrink while registration is still
    // open; a decrease marks a registrar bug or a manipulation attempt.
    if weight < participant.weight {
        return Err(ErrorKind::WeightMustNotDecrease);
    }

    // Unregister the old weight, then register the new one.
    distribution.participant_total_weight =
        distribution.participant_total_weight - participant.weight as u128;
    participant.weight = weight;
    distribution.participant_total_weight =
        distribution.participant_total_weight + weight as u128;

    Ok(())
}

} // verus!
