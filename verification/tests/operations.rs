// Per-operation checks: every error variant, the phase machinery, and the
// observability snapshot.

use distribute_by_locked_vote_weight::error::ErrorKind;
use distribute_by_locked_vote_weight::events::Info;
use distribute_by_locked_vote_weight::instructions;
use distribute_by_locked_vote_weight::ledger::Ledger;
use distribute_by_locked_vote_weight::state::Distribution;

const NOW_TS: i64 = 1_700_000_000;

fn new_ledger() -> Ledger {
    let end_ts = NOW_TS as u64 + 100;
    Ledger::new(9, 1, 2, 3, 4, 0, end_ts, end_ts, 251, NOW_TS).unwrap()
}

#[test]
fn create_distribution_fixes_fields() {
    let d = instructions::create_distribution(1, 2, 3, 4, 5, 100, 200, 7).unwrap();
    assert_eq!(d.admin, 1);
    assert_eq!(d.registrar, 2);
    assert_eq!(d.mint, 3);
    assert_eq!(d.vault, 4);
    assert_eq!(d.index, 5);
    assert_eq!(d.registration_end_ts, 100);
    assert_eq!(d.weight_ts, 200);
    assert_eq!(d.bump, 7);
    assert_eq!(d.participant_total_weight, 0);
    assert_eq!(d.total_amount_to_distribute, 0);
    assert_eq!(d.time_offset, 0);
    assert_eq!(d.participant_count, 0);
    assert_eq!(d.claim_count, 0);
}

#[test]
fn create_distribution_rejects_early_weight_ts() {
    assert_eq!(
        instructions::create_distribution(1, 2, 3, 4, 5, 200, 199, 7),
        Err(ErrorKind::WeightNotDuringRegistration)
    );
    // The boundary case is allowed.
    assert!(instructions::create_distribution(1, 2, 3, 4, 5, 200, 200, 7).is_ok());
}

#[test]
fn phase_is_a_pure_function_of_the_clock() {
    let d = instructions::create_distribution(1, 2, 3, 4, 5, 1000, 1000, 7).unwrap();
    assert!(d.in_registration_phase(999));
    assert!(!d.in_claim_phase(999));
    assert!(!d.in_registration_phase(1000));
    assert!(d.in_claim_phase(1000));
    assert_eq!(d.clock_unix_timestamp(999), 999);
}

#[test]
fn clock_adds_the_debug_offset() {
    let mut d = instructions::create_distribution(1, 2, 3, 4, 5, 1000, 1000, 7).unwrap();
    instructions::set_time_offset(&mut d, 600);
    assert_eq!(d.time_offset, 600);
    assert_eq!(d.clock_unix_timestamp(500), 1100);
    assert!(d.in_claim_phase(500));
    instructions::set_time_offset(&mut d, -200);
    assert_eq!(d.clock_unix_timestamp(500), 300);
    assert!(d.in_registration_phase(500));
}

#[test]
fn voter_weight_wraps_the_registrar_error() {
    let d = instructions::create_distribution(1, 2, 3, 4, 5, 1000, 1000, 7).unwrap();
    assert_eq!(d.voter_weight(Some(42)), Ok(42));
    assert_eq!(d.voter_weight(None), Err(ErrorKind::VoterStakeRegistryError));
}

#[test]
fn create_participant_rejects_registrar_failure_and_zero_weight() {
    let mut ledger = new_ledger();
    assert_eq!(
        ledger.create_participant(10, 11, 12, None),
        Err(ErrorKind::VoterStakeRegistryError)
    );
    assert_eq!(
        ledger.create_participant(10, 11, 12, Some(0)),
        Err(ErrorKind::NoLockedVoteWeight)
    );
    assert_eq!(ledger.distribution.participant_count, 0);
    assert_eq!(ledger.distribution.participant_total_weight, 0);
}

#[test]
fn create_participant_rejects_a_duplicate_record() {
    let mut ledger = new_ledger();
    ledger.create_participant(10, 11, 12, Some(70)).unwrap();
    assert_eq!(
        ledger.create_participant(10, 99, 98, Some(80)),
        Err(ErrorKind::UnknownError)
    );
    assert_eq!(ledger.distribution.participant_count, 1);
    assert_eq!(ledger.distribution.participant_total_weight, 70);
}

#[test]
fn update_participant_rejects_a_lower_weight() {
    let mut ledger = new_ledger();
    ledger.create_participant(10, 11, 12, Some(70)).unwrap();
    assert_eq!(
        ledger.update_participant(10, Some(69)),
        Err(ErrorKind::WeightMustNotDecrease)
    );
    assert_eq!(ledger.participants[0].weight, 70);
    assert_eq!(ledger.distribution.participant_total_weight, 70);
    // An equal weight is an allowed (idempotent) update.
    ledger.update_participant(10, Some(70)).unwrap();
    assert_eq!(ledger.participants[0].weight, 70);
    assert_eq!(ledger.distribution.participant_total_weight, 70);
}

#[test]
fn update_participant_rejects_unknown_voters_and_failures() {
    let mut ledger = new_ledger();
    ledger.create_participant(10, 11, 12, Some(70)).unwrap();
    assert_eq!(
        ledger.update_participant(20, Some(80)),
        Err(ErrorKind::UnknownError)
    );
    assert_eq!(
        ledger.update_participant(10, None),
        Err(ErrorKind::VoterStakeRegistryError)
    );
    assert_eq!(
        ledger.update_participant(10, Some(0)),
        Err(ErrorKind::NoLockedVoteWeight)
    );
    assert_eq!(ledger.participants[0].weight, 70);
}

#[test]
fn claim_requires_the_claim_phase_and_the_right_authority() {
    let mut ledger = new_ledger();
    ledger.deposit(900);
    ledger.create_participant(10, 11, 12, Some(70)).unwrap();
    assert_eq!(ledger.claim(10, 11), Err(ErrorKind::NotInClaimPhase));

    ledger.advance_clock(NOW_TS + 200);
    // Only the registered authority may claim.
    assert_eq!(ledger.claim(10, 99), Err(ErrorKind::UnknownError));
    // The sole participant receives the whole pool.
    assert_eq!(ledger.claim(10, 11), Ok(900));
    assert_eq!(ledger.vault_balance, 0);
    assert_eq!(ledger.distribution.claim_count, 1);
}

#[test]
fn start_claim_phase_reports_the_window() {
    let mut ledger = new_ledger();
    ledger.deposit(900);
    ledger.create_participant(10, 11, 12, Some(70)).unwrap();
    assert_eq!(
        ledger.start_claim_phase(),
        Err(ErrorKind::TooEarlyForClaimPhase)
    );
    ledger.advance_clock(NOW_TS + 200);
    assert_eq!(ledger.start_claim_phase(), Ok(()));
    ledger.claim(10, 11).unwrap();
    assert_eq!(
        ledger.start_claim_phase(),
        Err(ErrorKind::ClaimPhaseAlreadyStarted)
    );
}

#[test]
fn log_info_reports_both_phases() {
    let mut ledger = new_ledger();
    ledger.deposit(250);
    ledger.create_participant(10, 11, 12, Some(70)).unwrap();

    let info = ledger.log_info(10, Some(75)).unwrap();
    assert_eq!(
        info,
        Info {
            participant_total_weight: 70,
            distribution_amount: 250,
            can_start_claim_phase: false,
            in_claim_phase: false,
            usable_weight: Some(75),
            registered_weight: Some(70),
        }
    );

    // While registration is open, a registrar failure surfaces.
    assert_eq!(
        ledger.log_info(10, None),
        Err(ErrorKind::VoterStakeRegistryError)
    );

    ledger.advance_clock(NOW_TS + 200);
    // Once the window is closed, the registrar is not consulted.
    let info = ledger.log_info(20, None).unwrap();
    assert_eq!(
        info,
        Info {
            participant_total_weight: 70,
            distribution_amount: 250,
            can_start_claim_phase: true,
            in_claim_phase: true,
            usable_weight: None,
            registered_weight: None,
        }
    );
}

#[test]
fn ledger_new_rejects_the_misconfigured_window() {
    assert!(matches!(
        Ledger::new(9, 1, 2, 3, 4, 0, 200, 199, 251, NOW_TS),
        Err(ErrorKind::WeightNotDuringRegistration)
    ));
}

#[test]
fn aggregate_tracks_many_participants() {
    let mut ledger = new_ledger();
    let mut expected: u128 = 0;
    for voter in 0..50u64 {
        let weight = voter * 13 + 1;
        ledger
            .create_participant(voter, voter + 1000, 12, Some(weight))
            .unwrap();
        expected += weight as u128;
    }
    assert_eq!(ledger.distribution.participant_total_weight, expected);
    assert_eq!(ledger.distribution.participant_count, 50);

    // Drain every participant once the window closes; the sum of all
    // payouts never exceeds the snapshot.
    ledger.deposit(1_000_000);
    ledger.advance_clock(NOW_TS + 200);
    let mut paid: u64 = 0;
    for voter in 0..50u64 {
        paid += ledger.claim(voter, voter + 1000).unwrap();
    }
    assert!(paid <= 1_000_000);
    assert_eq!(paid + ledger.vault_balance, 1_000_000);
    assert_eq!(ledger.distribution.claim_count, 50);
    assert!(ledger.participants.is_empty());
}
