use vstd::prelude::*;

use crate::error::ErrorKind;
use crate::state::Distribution;

verus! {

/// Creates a new distribution record with all counters and weights zeroed.
///
/// The identities of the admin, the stake registrar, the token mint and the
/// freshly allocated custody vault are fixed forever; `index`
/// disambiguates multiple distributions of one admin and, with `admin` and
/// `bump`, determines the record's derived address. Fails with a
/// configuration error unless the weight reference time lies at or after
/// the end of the registration window, so registration only ever credits
/// weight that is provably still locked once it ends.
pub fn create_distribution(
    admin: u64,
    registrar: u64,
    mint: u64,
    vault: u64,
    index: u64,
    registration_end_ts: u64,
    weight_ts: u64,
    bump: u8,
) -> (r: Result<Distribution, ErrorKind>)
    ensures
        r is Ok <==> registration_end_ts <= weight_ts,
        r is Err ==> r == Err::<Distribution, ErrorKind>(ErrorKind::WeightNotDuringRegistration),
        r is Ok ==> r == Ok::<Distribution, ErrorKind>(Distribution {
            admin,
            registrar,
            mint,
            vault,
            index,
            registration_end_ts,
            weight_ts,
            participant_total_weight: 0,
            total_amount_to_distribute: 0,
            time_offset: 0,
            participant_count: 0,
            claim_count: 0,
            bump,
        }),
{
    if !(registration_end_ts <= weight_ts) {
        return Err(ErrorKind::WeightNotDuringRegistration);
    }

    Ok(Distribution {
        admin,
        registrar,
        mint,
        vault,
        index,
        registration_end_ts,
        weight_ts,
        participant_total_weight: 0,
        total_amount_to_distribute: 0,
        time_offset: 0,
        participant_count: 0,
        claim_count: 0,
        bump,
    })
}

} // verus!
