// The documented end-to-end scenarios: a registration window shared by two
// voters, a late third registration, two pro-rata claims, and a late
// weight update.

use distribute_by_locked_vote_weight::error::ErrorKind;
use distribute_by_locked_vote_weight::ledger::Ledger;

const NOW_TS: i64 = 1_700_000_000;
const WEIGHT0: u64 = 1000;
const WEIGHT1: u64 = 500;

// A distribution ending 100 seconds from now, pre-funded with 1000 tokens,
// with two voters registered at guaranteed weights 1000 and 500.
fn registered_ledger() -> Ledger {
    let end_ts = NOW_TS as u64 + 100;
    let mut ledger =
        Ledger::new(9, 1, 2, 3, 4, 0, end_ts, end_ts, 251, NOW_TS).unwrap();
    ledger.deposit(1000);
    ledger.create_participant(10, 11, 12, Some(WEIGHT0)).unwrap();
    ledger.create_participant(20, 21, 22, Some(WEIGHT1)).unwrap();
    ledger
}

// Two registrations during the window add up in the aggregate.
#[test]
fn scenario_two_registrations() {
    let ledger = registered_ledger();
    assert_eq!(
        ledger.distribution.participant_total_weight,
        (WEIGHT0 + WEIGHT1) as u128
    );
    assert_eq!(ledger.distribution.participant_count, 2);
    assert_eq!(ledger.vault_balance, 1000);
}

// Registering a third voter after the window fails with a phase violation
// and leaves the aggregate unchanged.
#[test]
fn scenario_late_registration_fails() {
    let mut ledger = registered_ledger();
    ledger.advance_clock(NOW_TS + 200);
    assert_eq!(
        ledger.create_participant(30, 31, 32, Some(700)),
        Err(ErrorKind::TooLateToRegister)
    );
    assert_eq!(
        ledger.distribution.participant_total_weight,
        (WEIGHT0 + WEIGHT1) as u128
    );
    assert_eq!(ledger.distribution.participant_count, 2);
}

// The first claim snapshots the vault balance at that instant, pays the
// floor share, and destroys the record.
#[test]
fn scenario_first_claim_snapshots() {
    let mut ledger = registered_ledger();
    ledger.advance_clock(NOW_TS + 200);
    // A deposit after the window opened but before anyone claimed still
    // counts towards the pool.
    ledger.deposit(500);

    let claim0 = ledger.claim(10, 11).unwrap();
    assert_eq!(ledger.distribution.total_amount_to_distribute, 1500);
    assert_eq!(claim0, 1500 * WEIGHT0 / (WEIGHT0 + WEIGHT1));
    assert_eq!(claim0, 1000);

    // The record is gone; a second claim for the same voter fails.
    assert!(ledger.participants.iter().all(|p| p.voter != 10));
    assert_eq!(ledger.claim(10, 11), Err(ErrorKind::UnknownError));
}

// The second claim uses the same snapshot; what stays in the vault is
// exactly the floor-division dust.
#[test]
fn scenario_second_claim_and_dust() {
    let mut ledger = registered_ledger();
    ledger.advance_clock(NOW_TS + 200);
    let total = 1000;
    let claim0 = ledger.claim(10, 11).unwrap();

    // A deposit between the claims no longer changes the pool.
    ledger.deposit(300);
    let claim1 = ledger.claim(20, 21).unwrap();
    assert_eq!(ledger.distribution.total_amount_to_distribute, total);
    assert_eq!(claim0, total * WEIGHT0 / (WEIGHT0 + WEIGHT1));
    assert_eq!(claim1, total * WEIGHT1 / (WEIGHT0 + WEIGHT1));
    assert_eq!(
        ledger.vault_balance,
        total + 300
            - total * WEIGHT0 / (WEIGHT0 + WEIGHT1)
            - total * WEIGHT1 / (WEIGHT0 + WEIGHT1)
    );
    assert!(claim0 + claim1 <= total);
}

// Updating a weight after the window fails with a phase violation even if
// the voter's true locked amount increased.
#[test]
fn scenario_late_update_fails() {
    let mut ledger = registered_ledger();
    ledger.advance_clock(NOW_TS + 200);
    assert_eq!(
        ledger.update_participant(10, Some(WEIGHT0 + 400)),
        Err(ErrorKind::TooLateToRegister)
    );
    assert_eq!(ledger.participants[0].weight, WEIGHT0);
    assert_eq!(
        ledger.distribution.participant_total_weight,
        (WEIGHT0 + WEIGHT1) as u128
    );
}
