use vstd::prelude::*;

verus! {

/// One registered voter's claim-eligibility record within a distribution.
///
/// Created once during the registration window, optionally updated (upward
/// only) before the window closes, and permanently destroyed by a
/// successful claim. Account identities are carried as opaque numeric
/// handles; the runtime shell owns the full-width addresses.
#[derive(Clone, Copy, Debug, PartialEq, Eq, Structural)]
pub struct Participant {
    /// The distribution record this participant belongs to.
    pub distribution: u64,
    /// The voter record at the stake registrar whose locked deposits back
    /// this participant's weight.
    pub voter: u64,
    /// The only identity allowed to trigger a claim for this participant.
    pub voter_authority: u64,
    /// The account that funded this record and is refunded its storage
    /// cost when the record is closed.
    pub payer: u64,
    /// This participant's current locked-weight contribution. Positive,
    /// non-decreasing while registration is open, frozen afterwards.
    pub weight: u64,
}

/// How one successful weight update relates a participant record to its
/// previous state: only the weight moves, and only upward.
pub open spec fn participant_update_step(before: Participant, after: Participant) -> bool {
    &&& after == (Participant { weight: after.weight, ..before })
    &&& after.weight >= before.weight
}

} // verus!
