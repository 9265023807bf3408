use vstd::prelude::*;

use vstd::arithmetic::div_mod::{
    lemma_div_is_ordered, lemma_div_multiples_vanish, lemma_div_pos_is_pos,
    lemma_fundamental_div_mod, lemma_mod_bound,
};
use vstd::arithmetic::mul::lemma_mul_inequality;

use crate::error::ErrorKind;
use crate::state::{Distribution, Participant};

verus! {

/// A participant's share of the distributable pool: the floor of
/// `total * weight / total_weight`, computed over mathematical integers.
/// Floor division means the shares of all participants can never add up to
/// more than the pool; the residual dust stays in the vault.
pub open spec fn pro_rata_share(total: u64, weight: u64, total_weight: u128) -> int {
    (total * weight) / (total_weight as int)
}

/// A single pro-rata share is non-negative and never exceeds the pool, and
/// what floor division withholds from it is exactly the division's
/// remainder, one value below `total_weight`: summed over all claims, that
/// is the dust the vault keeps.
pub proof fn lemma_pro_rata_share_bounds(total: u64, weight: u64, total_weight: u128)
    requires
        0 < total_weight,
        weight <= total_weight,
    ensures
        0 <= pro_rata_share(total, weight, total_weight) <= total,
        pro_rata_share(total, weight, total_weight) * (total_weight as int)
            == total * weight - (total * weight) % (total_weight as int),
        0 <= (total * weight) % (total_weight as int) < total_weight,
{
    let t = total as int;
    let w = weight as int;
    let tw = total_weight as int;
    let q = (t * w) / tw;

    lemma_div_pos_is_pos(t * w, tw);
    lemma_fundamental_div_mod(t * w, tw);
    lemma_mod_bound(t * w, tw);
    // share * total_weight == total * weight - remainder <= total * weight.
    assert(q * tw <= t * w);

    // The share cannot exceed the pool: t * w <= t * tw, so flooring after
    // dividing by tw stays at or below t.
    lemma_mul_inequality(w, tw, t);
    lemma_div_is_ordered(t * w, tw * t, tw);
    lemma_div_multiples_vanish(t, tw);
}

/// Claims a participant's share of the distribution's vault.
///
/// On the distribution's first claim the vault balance seen at that
/// instant becomes the distributable pool, so deposits made after the
/// claim window opened but before anyone claimed still count, while later
/// deposits do not. Every claim then receives the floor of
/// `pool * weight / participant_total_weight`.
///
/// The function returns the amount to move out of the vault; the runtime
/// shell performs the transfer under the distribution's derived authority
/// and permanently closes the participant record, refunding its storage
/// cost to the original payer. Fails, leaving the distribution unchanged,
/// when the claim window has not opened yet.
pub fn claim(
    distribution: &mut Distribution,
    participant: &Participant,
    vault_balance: u64,
    now: i64,
) -> (r: Result<u64, ErrorKind>)
    requires
        old(distribution).clock_in_bounds(now),
        0 < participant.weight <= old(distribution).participant_total_weight,
        old(distribution).claim_count < u32::MAX,
    ensures
        r is Err ==> *final(distribution) == *old(distribution),
        !old(distribution).in_claim_phase_at(now)
            <==> r == Err::<u64, ErrorKind>(ErrorKind::NotInClaimPhase),
        r is Ok <==> old(distribution).in_claim_phase_at(now),
        r is Ok ==> {
            let pool = if old(distribution).claim_count == 0 {
                vault_balance
            } else {
                old(distribution).total_amount_to_distribute
            };
            &&& *final(distribution) == (Distribution {
                total_amount_to_distribute: pool,
                claim_count: (old(distribution).claim_count + 1) as u32,
                ..*old(distribution)
            })
            &&& r->Ok_0 == pro_rata_share(
                pool,
                participant.weight,
                old(distribution).participant_total_weight,
            )
            &&& r->Ok_0 <= pool
            &&& r->Ok_0 * (old(distribution).participant_total_weight as int)
                <= pool * participant.weight
        },
{
    if !distribution.in_claim_phase(now) {
        return Err(ErrorKind::NotInClaimPhase);
    }

    // The first claim fixes the distributable pool.
    if distribution.claim_count == 0 {
        distribution.total_amount_to_distribute = vault_balance;
    }
    distribution.claim_count = distribution.claim_count + 1;

    let total = distribution.total_amount_to_distribute;
    let weight = participant.weight;
    let total_weight = distribution.participant_total_weight;

    proof {
        lemma_pro_rata_share_bounds(total, weight, total_weight);
        // The wide product of two 64-bit values fits in 128 bits.
        lemma_mul_inequality(total as int, u64::MAX as int, weight as int);
        lemma_mul_inequality(weight as int, u64::MAX as int, u64::MAX as int);
    }

    // A wide intermediate product, so that pool times weight cannot
    // overflow before the division narrows it back down.
    let product: u128 = (total as u128) * (weight as u128);
    let share: u128 = product / total_weight;
    Ok(share as u64)
}

} // verus!
