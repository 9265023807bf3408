use vstd::prelude::*;

use crate::ledger::{sum_weights, Ledger};
use crate::state::{participant_update_step, snapshot_step, Distribution, Participant};

verus! {

/// Sum of weights: in every well-formed state the distribution's aggregate
/// equals the sum of the weights of all currently open participants plus
/// the weight consumed by successful claims; before any claim has
/// succeeded it is the literal sum of the open participants' weights.
pub proof fn lemma_sum_of_weights(l: Ledger)
    requires
        l.wf(),
    ensures
        l.distribution.participant_total_weight
            == sum_weights(l.participants@) + l.claimed_weight@,
        l.distribution.claim_count == 0
            ==> l.distribution.participant_total_weight == sum_weights(l.participants@),
{
    // Both equalities are conjuncts of the invariant itself: the weight
    // accounting clause, and the fact that nothing has been consumed
    // before the first claim.
}

/// Monotonic weight along one pair of a chain of successful updates.
proof fn lemma_weight_chain(history: Seq<Participant>, i: int, j: int)
    requires
        0 <= i <= j < history.len(),
        forall|k: int|
            0 <= k < history.len() - 1
                ==> participant_update_step(#[trigger] history[k], history[k + 1]),
    ensures
        history[i].weight <= history[j].weight,
    decreases j - i,
{
    if i < j {
        lemma_weight_chain(history, i, j - 1);
        assert(participant_update_step(history[j - 1], history[j]));
    }
}

/// Monotonic weight: across any sequence of participant states linked by
/// successful updates, the recorded weight never decreases. (A rejected
/// update leaves the record unchanged, so it adds no link to the chain.)
pub proof fn lemma_weight_monotonic(history: Seq<Participant>)
    requires
        forall|k: int|
            0 <= k < history.len() - 1
                ==> participant_update_step(#[trigger] history[k], history[k + 1]),
    ensures
        forall|i: int, j: int|
            0 <= i <= j < history.len()
                ==> (#[trigger] history[i]).weight <= (#[trigger] history[j]).weight,
{
    assert forall|i: int, j: int| 0 <= i <= j < history.len()
        implies (#[trigger] history[i]).weight <= (#[trigger] history[j]).weight by {
        lemma_weight_chain(history, i, j);
    }
}

/// Snapshot fixed along one pair of a chain of atomic operations.
proof fn lemma_snapshot_chain(history: Seq<Distribution>, i: int, j: int)
    requires
        0 <= i <= j < history.len(),
        forall|k: int|
            0 <= k < history.len() - 1
                ==> snapshot_step(#[trigger] history[k], history[k + 1]),
    ensures
        history[i].claim_count > 0 ==> {
            &&& history[j].total_amount_to_distribute
                == history[i].total_amount_to_distribute
            &&& history[j].claim_count > 0
        },
    decreases j - i,
{
    if i < j {
        lemma_snapshot_chain(history, i, j - 1);
        assert(snapshot_step(history[j - 1], history[j]));
    }
}

/// Snapshot-once pro-rata: across any sequence of distribution states
/// linked by atomic operations, once the claim counter is positive the
/// distributable pool never changes again, however many deposits or
/// further claims follow.
pub proof fn lemma_snapshot_once(history: Seq<Distribution>)
    requires
        forall|k: int|
            0 <= k < history.len() - 1
                ==> snapshot_step(#[trigger] history[k], history[k + 1]),
    ensures
        forall|i: int, j: int|
            0 <= i <= j < history.len() && (#[trigger] history[i]).claim_count > 0
                ==> (#[trigger] history[j]).total_amount_to_distribute
                    == history[i].total_amount_to_distribute,
{
    assert forall|i: int, j: int|
        0 <= i <= j < history.len() && (#[trigger] history[i]).claim_count > 0
        implies (#[trigger] history[j]).total_amount_to_distribute
            == history[i].total_amount_to_distribute by {
        lemma_snapshot_chain(history, i, j);
    }
}

/// Rounding bound: in every well-formed state the amounts paid out by all
/// successful claims together never exceed the snapshotted pool; floor
/// division leaves the residual dust in the vault for good.
pub proof fn lemma_rounding_bound(l: Ledger)
    requires
        l.wf(),
    ensures
        l.claimed_amount@ <= l.distribution.total_amount_to_distribute,
{
    // A conjunct of the invariant's claim accounting: before the first
    // claim both sides are zero, afterwards every claim re-established
    // the bound.
}

} // verus!
