use vstd::prelude::*;

use crate::error::ErrorKind;

verus! {

/// The per-pool record governing one token giveaway instance.
///
/// The distribution owns a custody vault and moves through two
/// time-ordered phases: registration (`now < registration_end_ts`) and
/// claim (`now >= registration_end_ts`). The phase is a pure function of
/// the adjusted clock, never a stored flag. Account identities are carried
/// as opaque numeric handles; the runtime shell owns the full-width
/// addresses.
#[derive(Clone, Copy, Debug, PartialEq, Eq, Structural)]
pub struct Distribution {
    /// The authority that created the distribution. Immutable.
    pub admin: u64,
    /// The stake registrar that weights are computed against. Immutable.
    pub registrar: u64,
    /// The token type being distributed. Immutable.
    pub mint: u64,
    /// The custody account holding the distributable tokens. Immutable.
    pub vault: u64,
    /// Disambiguates multiple distributions owned by the same admin; part
    /// of the record's derived address together with `admin`.
    pub index: u64,

    /// Participants can only be created or updated before this time;
    /// claims can only be made from this time on.
    pub registration_end_ts: u64,

    /// The forward reference time at which guaranteed-locked weight is
    /// evaluated. Never before `registration_end_ts`, so registration only
    /// credits weight that is provably still locked once it ends.
    pub weight_ts: u64,

    /// Running sum of every live participant's weight, kept wide so that
    /// summing many 64-bit weights cannot overflow.
    pub participant_total_weight: u128,

    /// The vault balance snapshotted at the moment of the first claim;
    /// zero and meaningless before that.
    pub total_amount_to_distribute: u64,

    /// Debug only: clock skew added to the real clock so test harnesses
    /// can move forward in time. Zero in production.
    pub time_offset: i64,

    /// How many participant records have been created. Never decreases.
    pub participant_count: u32,
    /// How many claims have succeeded. Never decreases.
    pub claim_count: u32,

    /// The canonical derivation salt for the record's address, stored so
    /// later operations can reconstruct the vault's signing authority.
    pub bump: u8,
}

impl Distribution {
    /// The clock value every phase check uses: the real clock plus the
    /// debug-only offset, as a mathematical integer.
    pub open spec fn adjusted_ts(self, now: i64) -> int {
        now + self.time_offset
    }

    /// The adjusted clock neither overflows the clock's width nor falls
    /// before the epoch.
    pub open spec fn clock_in_bounds(self, now: i64) -> bool {
        0 <= self.adjusted_ts(now) <= i64::MAX
    }

    /// Whether, at raw clock `now`, the distribution is still in its
    /// registration window.
    pub open spec fn in_registration_phase_at(self, now: i64) -> bool {
        self.adjusted_ts(now) < self.registration_end_ts
    }

    /// Whether, at raw clock `now`, claims are open. The two phases are
    /// mutually exclusive and exhaustive.
    pub open spec fn in_claim_phase_at(self, now: i64) -> bool {
        !self.in_registration_phase_at(now)
    }

    /// The adjusted timestamp: the raw clock `now` plus the debug-only
    /// offset.
    pub fn clock_unix_timestamp(&self, now: i64) -> (ts: u64)
        requires
            self.clock_in_bounds(now),
        ensures
            ts == self.adjusted_ts(now),
    {
        (now + self.time_offset) as u64
    }

    /// Whether registration is still open at raw clock `now`.
    pub fn in_registration_phase(&self, now: i64) -> (r: bool)
        requires
            self.clock_in_bounds(now),
        ensures
            r == self.in_registration_phase_at(now),
    {
        self.clock_unix_timestamp(now) < self.registration_end_ts
    }

    /// Whether claims are open at raw clock `now`.
    pub fn in_claim_phase(&self, now: i64) -> (r: bool)
        requires
            self.clock_in_bounds(now),
        ensures
            r == self.in_claim_phase_at(now),
    {
        !self.in_registration_phase(now)
    }

    /// Folds the stake registrar's answer into the distribution's error
    /// vocabulary: the registrar reports the portion of a voter's deposits
    /// guaranteed to stay locked until `weight_ts`, or fails opaquely.
    pub fn voter_weight(&self, oracle_weight: Option<u64>) -> (r: Result<u64, ErrorKind>)
        ensures
            r == match oracle_weight {
                Some(w) => Ok::<u64, ErrorKind>(w),
                None => Err::<u64, ErrorKind>(ErrorKind::VoterStakeRegistryError),
            },
    {
        match oracle_weight {
            Some(w) => Ok(w),
            None => Err(ErrorKind::VoterStakeRegistryError),
        }
    }
}

/// How any single atomic operation relates a distribution record to its
/// previous state: the claim counter never decreases, and once any claim
/// has succeeded the distributable pool is fixed.
pub open spec fn snapshot_step(before: Distribution, after: Distribution) -> bool {
    &&& after.claim_count >= before.claim_count
    &&& before.claim_count > 0 ==> {
        &&& after.total_amount_to_distribute == before.total_amount_to_distribute
        &&& after.claim_count > 0
    }
}

} // verus!
