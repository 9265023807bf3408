use vstd::prelude::*;

use crate::error::ErrorKind;
use crate::events::Info;
use crate::state::Distribution;

verus! {

/// Assembles an [`Info`] snapshot for one distribution and one voter.
///
/// Read-only: nothing persisted changes. `vault_balance` is the custody
/// vault's current balance; `registered_weight` is the weight of the
/// voter's participant record, if one exists; `oracle_weight` is the stake
/// registrar's current answer for the voter, or `None` if the registrar
/// failed. The voter's live weight is reported only while registration is
/// still possible, and a registrar failure surfaces only then.
pub fn log_info(
    distribution: &Distribution,
    vault_balance: u64,
    registered_weight: Option<u64>,
    oracle_weight: Option<u64>,
    now: i64,
) -> (r: Result<Info, ErrorKind>)
    requires
        distribution.clock_in_bounds(now),
    ensures
        distribution.in_registration_phase_at(now) && oracle_weight is None
            <==> r == Err::<Info, ErrorKind>(ErrorKind::VoterStakeRegistryError),
        r is Ok <==> !(distribution.in_registration_phase_at(now) && oracle_weight is None),
        r is Ok ==> r == Ok::<Info, ErrorKind>(Info {
            participant_total_weight: distribution.participant_total_weight,
            distribution_amount: vault_balance,
            can_start_claim_phase: distribution.in_claim_phase_at(now)
                && distribution.claim_count == 0,
            in_claim_phase: distribution.in_claim_phase_at(now),
            usable_weight: if distribution.in_registration_phase_at(now) {
                oracle_weight
            } else {
                None
            },
            registered_weight,
        }),
{
    let can_register = distribution.in_registration_phase(now);

    let usable_weight = if can_register {
        Some(distribution.voter_weight(oracle_weight)?)
    } else {
        None
    };

    Ok(Info {
        participant_total_weight: distribution.participant_total_weight,
        distribution_amount: vault_balance,
        can_start_claim_phase: !can_register && distribution.claim_count == 0,
        in_claim_phase: !can_register,
        usable_weight,
        registered_weight,
    })
}

} // verus!
