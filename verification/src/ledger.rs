use vstd::prelude::*;

use crate::error::ErrorKind;
use crate::events::Info;
use crate::instructions;
use crate::state::{snapshot_step, Distribution, Participant};

verus! {

/// The sum, over mathematical integers, of the weights of a sequence of
/// participant records.
pub open spec fn sum_weights(s: Seq<Participant>) -> int
    decreases s.len(),
{
    if s.len() == 0 {
        0
    } else {
        sum_weights(s.drop_last()) + s.last().weight
    }
}

/// A sum of weights is never negative.
pub proof fn lemma_sum_weights_nonneg(s: Seq<Participant>)
    ensures
        0 <= sum_weights(s),
    decreases s.len(),
{
    if s.len() > 0 {
        lemma_sum_weights_nonneg(s.drop_last());
    }
}

/// A sum of weights is at most one maximal weight per record.
pub proof fn lemma_sum_weights_bound(s: Seq<Participant>)
    ensures
        sum_weights(s) <= s.len() * (u64::MAX as int),
    decreases s.len(),
{
    if s.len() > 0 {
        lemma_sum_weights_bound(s.drop_last());
    }
}

/// Appending a record adds exactly its weight to the sum.
pub proof fn lemma_sum_weights_push(s: Seq<Participant>, p: Participant)
    ensures
        sum_weights(s.push(p)) == sum_weights(s) + p.weight,
{
    assert(s.push(p).drop_last() =~= s);
}

/// Every single record's weight is bounded by the sum of all of them.
pub proof fn lemma_sum_weights_elem(s: Seq<Participant>, i: int)
    requires
        0 <= i < s.len(),
    ensures
        s[i].weight <= sum_weights(s),
    decreases s.len(),
{
    lemma_sum_weights_nonneg(s.drop_last());
    if i < s.len() - 1 {
        lemma_sum_weights_elem(s.drop_last(), i);
    }
}

/// Replacing one record moves the sum by the difference of the weights.
pub proof fn lemma_sum_weights_update(s: Seq<Participant>, i: int, p: Participant)
    requires
        0 <= i < s.len(),
    ensures
        sum_weights(s.update(i, p)) == sum_weights(s) - s[i].weight + p.weight,
    decreases s.len(),
{
    if i == s.len() - 1 {
        assert(s.update(i, p).drop_last() =~= s.drop_last());
    } else {
        assert(s.update(i, p).drop_last() =~= s.drop_last().update(i, p));
        lemma_sum_weights_update(s.drop_last(), i, p);
    }
}

/// Removing one record takes exactly its weight out of the sum.
pub proof fn lemma_sum_weights_remove(s: Seq<Participant>, i: int)
    requires
        0 <= i < s.len(),
    ensures
        sum_weights(s.remove(i)) == sum_weights(s) - s[i].weight,
    decreases s.len(),
{
    if i == s.len() - 1 {
        assert(s.remove(i) =~= s.drop_last());
    } else {
        assert(s.remove(i).drop_last() =~= s.drop_last().remove(i));
        assert(s.remove(i).last() == s.last());
        lemma_sum_weights_remove(s.drop_last(), i);
    }
}

/// A well-formed ledger always has room in its wide aggregate for one more
/// 64-bit weight: the aggregate is bounded by one maximal weight per
/// created record, and the record counter is far narrower than the
/// aggregate.
pub proof fn lemma_total_weight_headroom(l: Ledger)
    requires
        l.wf(),
    ensures
        l.distribution.participant_total_weight + u64::MAX <= u128::MAX,
{
    lemma_sum_weights_bound(l.participants@);
    lemma_sum_weights_nonneg(l.participants@);
    assert(l.distribution.participant_total_weight
        <= l.distribution.participant_count * (u64::MAX as int));
}

/// One more claim keeps the claim accounting of a well-formed ledger
/// intact: with `w` the claimed record's weight and `a` its payout, bounded
/// by its exact pro-rata share of the pool, the running payout total stays
/// at most the pool's pro-rata coverage of the consumed weight, never
/// exceeds the pool, and never overdraws the vault.
pub proof fn lemma_claim_accounting_step(l: Ledger, w: u64, a: u64)
    requires
        l.wf(),
        0 < w,
        w <= sum_weights(l.participants@),
        ({
            let pool = if l.distribution.claim_count == 0 {
                l.vault_balance
            } else {
                l.distribution.total_amount_to_distribute
            };
            &&& a <= pool
            &&& a * (l.distribution.participant_total_weight as int) <= pool * w
        }),
    ensures
        ({
            let pool = if l.distribution.claim_count == 0 {
                l.vault_balance
            } else {
                l.distribution.total_amount_to_distribute
            };
            &&& l.claimed_amount@ + a <= pool
            &&& (l.claimed_amount@ + a) * (l.distribution.participant_total_weight as int)
                <= pool * (l.claimed_weight@ + w)
            &&& a <= l.vault_balance
            &&& l.claimed_amount@ + a + (l.vault_balance - a) >= pool
        }),
{
    let big = l.distribution.participant_total_weight as int;
    let ca = l.claimed_amount@;
    let cw = l.claimed_weight@;
    lemma_sum_weights_nonneg(l.participants@);
    if l.distribution.claim_count == 0 {
        // Nothing claimed yet: the payout total is exactly this payout,
        // and the pool is exactly the vault.
    } else {
        let t = l.distribution.total_amount_to_distribute as int;
        // Split both products over the new claim's contribution.
        assert((ca + a) * big == ca * big + a * big) by (nonlinear_arith);
        assert(t * (cw + w) == t * cw + t * w) by (nonlinear_arith);
        assert((ca + a) * big <= t * (cw + w));
        // The consumed weight still fits under the aggregate, so the
        // payout total still fits under the pool.
        if ca + a > t {
            assert((t + 1) * big <= (ca + a) * big) by (nonlinear_arith)
                requires
                    t + 1 <= ca + a,
                    big >= 0,
            ;
            assert((t + 1) * big == t * big + big) by (nonlinear_arith);
            assert(t * (cw + w) <= t * big) by (nonlinear_arith)
                requires
                    cw + w <= big,
                    t >= 0,
            ;
            assert(false);
        }
    }
}

/// One distribution's persistent record set, as the surrounding runtime
/// serialises it: the distribution record, every currently open
/// participant record, the custody vault's balance, and the raw clock.
///
/// Every operation is a single atomic unit of work; each one re-establishes
/// [`Ledger::wf`], the conjunction of the distribution's global invariants.
/// The two ghost tallies record what successful claims have consumed so
/// that the rounding bound (the sum of all payouts never exceeds the
/// snapshotted pool) is part of the invariant itself.
pub struct Ledger {
    /// The distribution record's derived address, which participant
    /// records reference back.
    pub distribution_address: u64,
    /// The distribution record.
    pub distribution: Distribution,
    /// All currently open participant records, one per registered voter.
    pub participants: Vec<Participant>,
    /// The custody vault's current token balance.
    pub vault_balance: u64,
    /// The runtime's raw clock, which only moves forward.
    pub now: i64,
    /// The total weight of participants consumed by successful claims.
    pub claimed_weight: Ghost<int>,
    /// The total amount paid out by successful claims.
    pub claimed_amount: Ghost<int>,
}

impl Ledger {
    /// Every open record carries positive weight, points back at this
    /// distribution, and registers a distinct voter.
    pub open spec fn participant_records_ok(self) -> bool {
        &&& forall|i: int| 0 <= i < self.participants@.len() ==> {
            &&& (#[trigger] self.participants@[i]).weight > 0
            &&& self.participants@[i].distribution == self.distribution_address
        }
        &&& forall|i: int, j: int|
            0 <= i < j < self.participants@.len()
                ==> (#[trigger] self.participants@[i]).voter
                    != (#[trigger] self.participants@[j]).voter
    }

    /// Created records split into open ones and claimed ones, and each
    /// claim consumed at most one maximal weight.
    pub open spec fn counters_ok(self) -> bool {
        &&& self.participants@.len() + self.distribution.claim_count
            == self.distribution.participant_count
        &&& self.claimed_weight@ <= self.distribution.claim_count * (u64::MAX as int)
    }

    /// The aggregate equals the sum of the weights of all currently open
    /// participants plus what claims have consumed; before the first claim
    /// the two coincide.
    pub open spec fn weight_accounting_ok(self) -> bool {
        &&& 0 <= self.claimed_weight@
        &&& sum_weights(self.participants@) + self.claimed_weight@
            == self.distribution.participant_total_weight
    }

    /// Before the first claim nothing has been paid out and no pool is
    /// fixed. From the first claim on, the pool is fixed, payouts keep
    /// `claimed_amount * total_weight <= pool * claimed_weight` (each claim
    /// pays at most its exact pro-rata share), never exceed the pool, and
    /// the vault still holds everything not yet paid out.
    pub open spec fn claim_accounting_ok(self) -> bool {
        &&& 0 <= self.claimed_amount@
        &&& if self.distribution.claim_count == 0 {
            &&& self.claimed_weight@ == 0
            &&& self.claimed_amount@ == 0
            &&& self.distribution.total_amount_to_distribute == 0
        } else {
            &&& self.distribution.in_claim_phase_at(self.now)
            &&& self.distribution.participant_total_weight > 0
            &&& self.claimed_amount@ * (self.distribution.participant_total_weight as int)
                <= (self.distribution.total_amount_to_distribute as int) * self.claimed_weight@
            &&& self.claimed_amount@ <= self.distribution.total_amount_to_distribute
            &&& self.claimed_amount@ + self.vault_balance
                >= self.distribution.total_amount_to_distribute
        }
    }

    /// The distribution's global invariant, restored by every atomic
    /// operation.
    pub open spec fn wf(self) -> bool {
        &&& self.distribution.registration_end_ts <= self.distribution.weight_ts
        &&& self.distribution.clock_in_bounds(self.now)
        &&& self.participant_records_ok()
        &&& self.counters_ok()
        &&& self.weight_accounting_ok()
        &&& self.claim_accounting_ok()
    }

    /// Whether a participant record for `voter` is currently open.
    pub open spec fn has_voter(self, voter: u64) -> bool {
        exists|i: int|
            0 <= i < self.participants@.len()
                && (#[trigger] self.participants@[i]).voter == voter
    }

    /// The position of `voter`'s open record; meaningful only when
    /// [`Ledger::has_voter`] holds, and unique because voters are distinct.
    pub open spec fn voter_index(self, voter: u64) -> int {
        choose|i: int|
            0 <= i < self.participants@.len()
                && (#[trigger] self.participants@[i]).voter == voter
    }

    /// The weight `voter`'s open record is registered with.
    pub open spec fn registered_weight_of(self, voter: u64) -> u64 {
        self.participants@[self.voter_index(voter)].weight
    }

    /// The only identity allowed to claim for `voter`'s record.
    pub open spec fn registered_authority_of(self, voter: u64) -> u64 {
        self.participants@[self.voter_index(voter)].voter_authority
    }

    /// Any open record holding `voter` sits at `voter_index(voter)`:
    /// distinct voters make the index unique.
    pub proof fn lemma_voter_index_unique(self, voter: u64, i: int)
        requires
            self.participant_records_ok(),
            0 <= i < self.participants@.len(),
            self.participants@[i].voter == voter,
        ensures
            self.has_voter(voter),
            self.voter_index(voter) == i,
    {
        let j = self.voter_index(voter);
        if i < j {
            assert(self.participants@[i].voter != self.participants@[j].voter);
        } else if j < i {
            assert(self.participants@[j].voter != self.participants@[i].voter);
        }
    }

    /// Locates the open record registered for `voter`, if any.
    fn find_voter(&self, voter: u64) -> (r: Option<usize>)
        ensures
            match r {
                Some(i) => 0 <= i < self.participants@.len()
                    && self.participants@[i as int].voter == voter,
                None => !self.has_voter(voter),
            },
    {
        let n = self.participants.len();
        let mut k: usize = 0;
        while k < n
            invariant
                n == self.participants@.len(),
                0 <= k <= n,
                forall|m: int| 0 <= m < k
                    ==> (#[trigger] self.participants@[m]).voter != voter,
            decreases n - k,
        {
            if self.participants[k].voter == voter {
                return Some(k);
            }
            k = k + 1;
        }
        None
    }

    /// Creates a distribution record with a fresh, empty custody vault and
    /// no participants. Fails with a configuration error unless the weight
    /// reference time lies at or after the registration window's end.
    pub fn new(
        distribution_address: u64,
        admin: u64,
        registrar: u64,
        mint: u64,
        vault: u64,
        index: u64,
        registration_end_ts: u64,
        weight_ts: u64,
        bump: u8,
        now: i64,
    ) -> (r: Result<Ledger, ErrorKind>)
        requires
            0 <= now,
        ensures
            r is Ok <==> registration_end_ts <= weight_ts,
            r is Err ==> r->Err_0 == ErrorKind::WeightNotDuringRegistration,
            r is Ok ==> {
                let l = r->Ok_0;
                &&& l.wf()
                &&& l.distribution_address == distribution_address
                &&& l.distribution == (Distribution {
                    admin,
                    registrar,
                    mint,
                    vault,
                    index,
                    registration_end_ts,
                    weight_ts,
                    participant_total_weight: 0,
                    total_amount_to_distribute: 0,
                    time_offset: 0,
                    participant_count: 0,
                    claim_count: 0,
                    bump,
                })
                &&& l.participants@.len() == 0
                &&& l.vault_balance == 0
                &&& l.now == now
                &&& l.claimed_weight@ == 0
                &&& l.claimed_amount@ == 0
            },
    {
        let distribution = instructions::create_distribution(
            admin,
            registrar,
            mint,
            vault,
            index,
            registration_end_ts,
            weight_ts,
            bump,
        )?;
        Ok(Ledger {
            distribution_address,
            distribution,
            participants: Vec::new(),
            vault_balance: 0,
            now,
            claimed_weight: Ghost(0),
            claimed_amount: Ghost(0),
        })
    }

    /// Tokens arriving in the custody vault. Deposits made before the
    /// first claim enlarge the distributable pool; later ones only add to
    /// the dust that stays behind.
    pub fn deposit(&mut self, amount: u64)
        requires
            old(self).wf(),
            old(self).vault_balance + amount <= u64::MAX,
        ensures
            final(self).wf(),
            snapshot_step(old(self).distribution, final(self).distribution),
            *final(self) == (Ledger {
                vault_balance: (old(self).vault_balance + amount) as u64,
                ..*old(self)
            }),
    {
        self.vault_balance = self.vault_balance + amount;
    }

    /// The runtime's clock moving forward. Time never runs backwards, so
    /// once the claim window has opened it stays open.
    pub fn advance_clock(&mut self, now: i64)
        requires
            old(self).wf(),
            old(self).now <= now,
            now + old(self).distribution.time_offset <= i64::MAX,
        ensures
            final(self).wf(),
            snapshot_step(old(self).distribution, final(self).distribution),
            *final(self) == (Ledger { now, ..*old(self) }),
    {
        self.now = now;
    }

    /// Registers a voter: one atomic operation that persists a new
    /// participant record and folds its weight into the aggregate.
    ///
    /// `oracle_weight` is the stake registrar's answer for this voter, or
    /// `None` if the registrar failed. The runtime refuses to initialise a
    /// record that already exists, reported here as [`ErrorKind::UnknownError`];
    /// every other failure comes from the registration rules and leaves the
    /// ledger unchanged.
    pub fn create_participant(
        &mut self,
        voter: u64,
        voter_authority: u64,
        payer: u64,
        oracle_weight: Option<u64>,
    ) -> (r: Result<(), ErrorKind>)
        requires
            old(self).wf(),
            old(self).distribution.participant_count < u32::MAX,
        ensures
            final(self).wf(),
            snapshot_step(old(self).distribution, final(self).distribution),
            r is Err ==> *final(self) == *old(self),
            old(self).has_voter(voter) <==> r == Err::<(), ErrorKind>(ErrorKind::UnknownError),
            !old(self).has_voter(voter)
                && !old(self).distribution.in_registration_phase_at(old(self).now)
                <==> r == Err::<(), ErrorKind>(ErrorKind::TooLateToRegister),
            !old(self).has_voter(voter)
                && old(self).distribution.in_registration_phase_at(old(self).now)
                && oracle_weight is None
                <==> r == Err::<(), ErrorKind>(ErrorKind::VoterStakeRegistryError),
            !old(self).has_voter(voter)
                && old(self).distribution.in_registration_phase_at(old(self).now)
                && oracle_weight == Some(0u64)
                <==> r == Err::<(), ErrorKind>(ErrorKind::NoLockedVoteWeight),
            r is Ok <==> !old(self).has_voter(voter)
                && old(self).distribution.in_registration_phase_at(old(self).now)
                && oracle_weight is Some && oracle_weight != Some(0u64),
            r is Ok ==> {
                let weight = oracle_weight->0;
                &&& final(self).participants@ == old(self).participants@.push(Participant {
                    distribution: old(self).distribution_address,
                    voter,
                    voter_authority,
                    payer,
                    weight,
                })
                &&& final(self).distribution == (Distribution {
                    participant_total_weight:
                        (old(self).distribution.participant_total_weight + weight) as u128,
                    participant_count:
                        (old(self).distribution.participant_count + 1) as u32,
                    ..old(self).distribution
                })
                &&& final(self).has_voter(voter)
                &&& final(self).registered_weight_of(voter) == weight
                &&& final(self).distribution_address == old(self).distribution_address
                &&& final(self).vault_balance == old(self).vault_balance
                &&& final(self).now == old(self).now
                &&& final(self).claimed_weight == old(self).claimed_weight
                &&& final(self).claimed_amount == old(self).claimed_amount
            },
    {
        let now = self.now;
        if let Some(_) = self.find_voter(voter) {
            return Err(ErrorKind::UnknownError);
        }

        proof {
            lemma_total_weight_headroom(*self);
        }
        let address = self.distribution_address;
        match instructions::create_participant(
            &mut self.distribution,
            address,
            voter,
            voter_authority,
            payer,
            oracle_weight,
            now,
        ) {
            Err(e) => Err(e),
            Ok(p) => {
                self.participants.push(p);
                proof {
                    lemma_sum_weights_push(old(self).participants@, p);
                    let n = old(self).participants@.len() as int;
                    self.lemma_voter_index_unique(voter, n);
                }
                Ok(())
            },
        }
    }

    /// Refreshes a registered voter's weight from the stake registrar's
    /// fresh answer, adjusting the aggregate: one atomic operation against
    /// the participant record and the distribution record.
    ///
    /// A voter without an open record is refused by the runtime's record
    /// lookup, reported here as [`ErrorKind::UnknownError`]. Successful
    /// updates never lower the recorded weight; every failure leaves the
    /// ledger unchanged.
    pub fn update_participant(
        &mut self,
        voter: u64,
        oracle_weight: Option<u64>,
    ) -> (r: Result<(), ErrorKind>)
        requires
            old(self).wf(),
        ensures
            final(self).wf(),
            snapshot_step(old(self).distribution, final(self).distribution),
            r is Err ==> *final(self) == *old(self),
            !old(self).has_voter(voter) <==> r == Err::<(), ErrorKind>(ErrorKind::UnknownError),
            old(self).has_voter(voter)
                && !old(self).distribution.in_registration_phase_at(old(self).now)
                <==> r == Err::<(), ErrorKind>(ErrorKind::TooLateToRegister),
            old(self).has_voter(voter)
                && old(self).distribution.in_registration_phase_at(old(self).now)
                && oracle_weight is None
                <==> r == Err::<(), ErrorKind>(ErrorKind::VoterStakeRegistryError),
            old(self).has_voter(voter)
                && old(self).distribution.in_registration_phase_at(old(self).now)
                && oracle_weight == Some(0u64)
                <==> r == Err::<(), ErrorKind>(ErrorKind::NoLockedVoteWeight),
            old(self).has_voter(voter)
                && old(self).distribution.in_registration_phase_at(old(self).now)
                && oracle_weight is Some && oracle_weight != Some(0u64)
                && oracle_weight->0 < old(self).registered_weight_of(voter)
                <==> r == Err::<(), ErrorKind>(ErrorKind::WeightMustNotDecrease),
            r is Ok <==> old(self).has_voter(voter)
                && old(self).distribution.in_registration_phase_at(old(self).now)
                && oracle_weight is Some && oracle_weight != Some(0u64)
                && oracle_weight->0 >= old(self).registered_weight_of(voter),
            r is Ok ==> {
                let weight = oracle_weight->0;
                let i = old(self).voter_index(voter);
                &&& final(self).participants@ == old(self).participants@.update(i, (Participant {
                    weight,
                    ..old(self).participants@[i]
                }))
                &&& final(self).distribution == (Distribution {
                    participant_total_weight:
                        (old(self).distribution.participant_total_weight
                            - old(self).registered_weight_of(voter) + weight) as u128,
                    ..old(self).distribution
                })
                &&& final(self).registered_weight_of(voter) == weight
                &&& weight >= old(self).registered_weight_of(voter)
                &&& final(self).distribution_address == old(self).distribution_address
                &&& final(self).vault_balance == old(self).vault_balance
                &&& final(self).now == old(self).now
                &&& final(self).claimed_weight == old(self).claimed_weight
                &&& final(self).claimed_amount == old(self).claimed_amount
            },
    {
        let now = self.now;
        let idx = match self.find_voter(voter) {
            Some(i) => i,
            None => {
                return Err(ErrorKind::UnknownError);
            },
        };
        proof {
            self.lemma_voter_index_unique(voter, idx as int);
            lemma_total_weight_headroom(*self);
            lemma_sum_weights_elem(self.participants@, idx as int);
            lemma_sum_weights_nonneg(self.participants@);
        }

        let mut p = self.participants[idx];
        match instructions::update_participant(&mut self.distribution, &mut p, oracle_weight, now) {
            Err(e) => Err(e),
            Ok(()) => {
                proof {
                    lemma_sum_weights_update(old(self).participants@, idx as int, p);
                }
                self.participants[idx] = p;
                proof {
                    self.lemma_voter_index_unique(voter, idx as int);
                }
                Ok(())
            },
        }
    }

    /// Claims a registered voter's pro-rata share of the pool: one atomic
    /// operation that fixes the pool on the distribution's first claim,
    /// pays out the floor share, and permanently closes the participant
    /// record.
    ///
    /// Only the record's registered authority may claim; the runtime's
    /// lookup and ownership checks are reported here as
    /// [`ErrorKind::UnknownError`]. A successful claim removes the record,
    /// so a second claim for the same voter finds nothing and fails: each
    /// record is the subject of at most one successful claim. Once any
    /// claim has succeeded the pool never changes again, later vault
    /// deposits included.
    pub fn claim(&mut self, voter: u64, voter_authority: u64) -> (r: Result<u64, ErrorKind>)
        requires
            old(self).wf(),
        ensures
            final(self).wf(),
            snapshot_step(old(self).distribution, final(self).distribution),
            r is Err ==> *final(self) == *old(self),
            !old(self).has_voter(voter)
                || old(self).registered_authority_of(voter) != voter_authority
                <==> r == Err::<u64, ErrorKind>(ErrorKind::UnknownError),
            old(self).has_voter(voter)
                && old(self).registered_authority_of(voter) == voter_authority
                && !old(self).distribution.in_claim_phase_at(old(self).now)
                <==> r == Err::<u64, ErrorKind>(ErrorKind::NotInClaimPhase),
            r is Ok <==> old(self).has_voter(voter)
                && old(self).registered_authority_of(voter) == voter_authority
                && old(self).distribution.in_claim_phase_at(old(self).now),
            old(self).distribution.claim_count > 0
                ==> final(self).distribution.total_amount_to_distribute
                    == old(self).distribution.total_amount_to_distribute,
            r is Ok ==> {
                let pool = if old(self).distribution.claim_count == 0 {
                    old(self).vault_balance
                } else {
                    old(self).distribution.total_amount_to_distribute
                };
                let i = old(self).voter_index(voter);
                let weight = old(self).registered_weight_of(voter);
                &&& r->Ok_0 == instructions::pro_rata_share(
                    pool,
                    weight,
                    old(self).distribution.participant_total_weight,
                )
                &&& r->Ok_0 <= pool
                &&& final(self).participants@ == old(self).participants@.remove(i)
                &&& !final(self).has_voter(voter)
                &&& final(self).distribution == (Distribution {
                    total_amount_to_distribute: pool,
                    claim_count: (old(self).distribution.claim_count + 1) as u32,
                    ..old(self).distribution
                })
                &&& final(self).vault_balance == old(self).vault_balance - r->Ok_0
                &&& final(self).claimed_weight@ == old(self).claimed_weight@ + weight
                &&& final(self).claimed_amount@ == old(self).claimed_amount@ + r->Ok_0
                &&& final(self).distribution_address == old(self).distribution_address
                &&& final(self).now == old(self).now
            },
    {
        let now = self.now;
        let idx = match self.find_voter(voter) {
            Some(i) => i,
            None => {
                return Err(ErrorKind::UnknownError);
            },
        };
        proof {
            self.lemma_voter_index_unique(voter, idx as int);
            lemma_sum_weights_elem(self.participants@, idx as int);
            lemma_sum_weights_nonneg(self.participants@);
        }
        let p = self.participants[idx];
        if p.voter_authority != voter_authority {
            return Err(ErrorKind::UnknownError);
        }

        let vault = self.vault_balance;
        match instructions::claim(&mut self.distribution, &p, vault, now) {
            Err(e) => Err(e),
            Ok(amount) => {
                proof {
                    lemma_sum_weights_remove(old(self).participants@, idx as int);
                    lemma_claim_accounting_step(*old(self), p.weight, amount);
                }
                let _ = self.participants.remove(idx);
                self.vault_balance = self.vault_balance - amount;
                self.claimed_weight = Ghost(self.claimed_weight@ + p.weight as int);
                self.claimed_amount = Ghost(self.claimed_amount@ + amount as int);
                Ok(amount)
            },
        }
    }

    /// Assembles the read-only [`Info`] snapshot for one voter: the
    /// aggregate weight, the vault balance, the phase flags, and — only
    /// while registration is still possible — the voter's live
    /// oracle-computed weight next to the weight already registered, if
    /// any. Nothing persisted changes.
    pub fn log_info(&self, voter: u64, oracle_weight: Option<u64>) -> (r: Result<Info, ErrorKind>)
        requires
            self.wf(),
        ensures
            self.distribution.in_registration_phase_at(self.now) && oracle_weight is None
                <==> r == Err::<Info, ErrorKind>(ErrorKind::VoterStakeRegistryError),
            r is Ok <==> !(self.distribution.in_registration_phase_at(self.now)
                && oracle_weight is None),
            r is Ok ==> r == Ok::<Info, ErrorKind>(Info {
                participant_total_weight: self.distribution.participant_total_weight,
                distribution_amount: self.vault_balance,
                can_start_claim_phase: self.distribution.in_claim_phase_at(self.now)
                    && self.distribution.claim_count == 0,
                in_claim_phase: self.distribution.in_claim_phase_at(self.now),
                usable_weight: if self.distribution.in_registration_phase_at(self.now) {
                    oracle_weight
                } else {
                    None
                },
                registered_weight: if self.has_voter(voter) {
                    Some(self.registered_weight_of(voter))
                } else {
                    None
                },
            }),
    {
        let registered_weight = match self.find_voter(voter) {
            Some(i) => {
                proof {
                    self.lemma_voter_index_unique(voter, i as int);
                }
                Some(self.participants[i].weight)
            },
            None => None,
        };
        instructions::log_info(
            &self.distribution,
            self.vault_balance,
            registered_weight,
            oracle_weight,
            self.now,
        )
    }

    /// Probes whether the claim phase could begin now; mutates nothing.
    /// The window opens by itself once the adjusted clock reaches the end
    /// of registration, so this only reports, for callers of the
    /// historical explicit transition, whether the window is open and no
    /// claim has fixed the pool yet.
    pub fn start_claim_phase(&self) -> (r: Result<(), ErrorKind>)
        requires
            self.wf(),
        ensures
            !self.distribution.in_claim_phase_at(self.now)
                <==> r == Err::<(), ErrorKind>(ErrorKind::TooEarlyForClaimPhase),
            self.distribution.in_claim_phase_at(self.now) && self.distribution.claim_count > 0
                <==> r == Err::<(), ErrorKind>(ErrorKind::ClaimPhaseAlreadyStarted),
            r is Ok <==> self.distribution.in_claim_phase_at(self.now)
                && self.distribution.claim_count == 0,
    {
        instructions::start_claim_phase(&self.distribution, self.now)
    }

    /// Debug-only clock skew, gated behind the admin by the runtime shell.
    /// It is modelled only up to the first claim: afterwards the pool is
    /// fixed and the adjusted clock may no longer jump around.
    pub fn set_time_offset(&mut self, time_offset: i64)
        requires
            old(self).wf(),
            old(self).distribution.claim_count == 0,
            0 <= old(self).now + time_offset <= i64::MAX,
        ensures
            final(self).wf(),
            snapshot_step(old(self).distribution, final(self).distribution),
            *final(self) == (Ledger {
                distribution: (Distribution {
                    time_offset,
                    ..old(self).distribution
                }),
                ..*old(self)
            }),
    {
        instructions::set_time_offset(&mut self.distribution, time_offset);
    }
}

} // verus!
