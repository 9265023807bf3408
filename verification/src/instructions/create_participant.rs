use vstd::prelude::*;

use crate::error::ErrorKind;
use crate::state::{Distribution, Participant};

verus! {

/// Registers a voter with a distribution: persists a new participant
/// record carrying the voter's guaranteed-locked weight and folds that
/// weight into the distribution's aggregate.
///
/// `oracle_weight` is the stake registrar's answer for
/// `(registrar, voter, now, weight_ts)`: the portion of the voter's
/// deposits guaranteed to stay locked until `weight_ts`, or `None` if the
/// registrar failed. The runtime shell queries the registrar and hands the
/// answer in; `now` is the raw clock, to which the distribution's
/// debug-only offset is added before the phase check.
///
/// Fails, leaving the distribution unchanged, when the registration window
/// has closed, when the registrar failed, or when the computed weight is
/// zero (nothing to register).
pub fn create_participant(
    distribution: &mut Distribution,
    distribution_address: u64,
    voter: u64,
    voter_authority: u64,
    payer: u64,
    oracle_weight: Option<u64>,
    now: i64,
) -> (r: Result<Participant, ErrorKind>)
    requires
        old(distribution).clock_in_bounds(now),
        old(distribution).participant_total_weight + u64::MAX <= u128::MAX,
        old(distribution).participant_count < u32::MAX,
    ensures
        r is Err ==> *final(distribution) == *old(distribution),
        !old(distribution).in_registration_phase_at(now)
            <==> r == Err::<Participant, ErrorKind>(ErrorKind::TooLateToRegister),
        old(distribution).in_registration_phase_at(now) && oracle_weight is None
            <==> r == Err::<Participant, ErrorKind>(ErrorKind::VoterStakeRegistryError),
        old(distribution).in_registration_phase_at(now) && oracle_weight == Some(0u64)
            <==> r == Err::<Participant, ErrorKind>(ErrorKind::NoLockedVoteWeight),
        r is Ok <==> old(distribution).in_registration_phase_at(now)
            && oracle_weight is Some && oracle_weight != Some(0u64),
        r is Ok ==> {
            let weight = oracle_weight->0;
            &&& r == Ok::<Participant, ErrorKind>(Participant {
                distribution: distribution_address,
                voter,
                voter_authority,
                payer,
                weight,
            })
            &&& *final(distribution) == (Distribution {
                participant_total_weight:
                    (old(distribution).participant_total_weight + weight) as u128,
                participant_count: (old(distribution).participant_count + 1) as u32,
                ..*old(distribution)
            })
        },
{
    if !distribution.in_registration_phase(now) {
        return Err(ErrorKind::TooLateToRegister);
    }

    let weight = distribution.voter_weight(oracle_weight)?;
    if weight == 0 {
        return Err(ErrorKind::NoLockedVoteWeight);
    }

    let participant = Participant {
        distribution: distribution_address,
        voter,
        voter_authority,
        payer,
        weight,
    };
    distribution.participant_total_weight =
        distribution.participant_total_weight + weight as u128;
    distribution.participant_count = distribution.participant_count + 1;

    Ok(participant)
}

} // verus!
