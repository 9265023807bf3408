use vstd::prelude::*;

verus! {

/// Why an operation against a distribution or participant record failed.
///
/// Every error aborts the whole atomic operation: no record is left
/// partially updated.
#[derive(Clone, Copy, Debug, PartialEq, Eq, Structural)]
pub enum ErrorKind {
    /// A failure outside the distribution rules themselves, such as the
    /// runtime refusing a record lookup or an ownership check.
    UnknownError,
    /// The first claim has already fixed the distributable amount.
    ClaimPhaseAlreadyStarted,
    /// The earliest claim phase start time has not been reached yet.
    TooEarlyForClaimPhase,
    /// The claim phase has not started yet.
    NotInClaimPhase,
    /// The registration phase has ended, so participants can no longer be
    /// created or updated.
    TooLateToRegister,
    /// The voter has no locked vote weight: there is nothing to register.
    NoLockedVoteWeight,
    /// The stake registrar could not compute a weight for the voter.
    VoterStakeRegistryError,
    /// An update would lower a participant's recorded weight, which only a
    /// bug or a manipulation attempt can produce.
    WeightMustNotDecrease,
    /// A distribution was configured with a weight reference time before
    /// the end of its registration window.
    WeightNotDuringRegistration,
}

} // verus!
