use deepdrive::ledger::{Ledger, INVITEE_BONUS, INVITER_BONUS, STARTING_GRANT};

#[test]
fn balance_lookup_is_idempotent() {
    let mut ledger = Ledger::new();
    let first = ledger.get_or_create_balance(7);
    assert_eq!(first, STARTING_GRANT);
    let second = ledger.get_or_create_balance(7);
    assert_eq!(second, STARTING_GRANT);
    assert!(ledger.debit_one(7));
    let after_debit = ledger.get_or_create_balance(7);
    assert_eq!(after_debit, STARTING_GRANT - 1);
}

#[test]
fn fresh_grant_allows_exactly_three_debits() {
    let mut ledger = Ledger::new();
    assert_eq!(ledger.get_or_create_balance(1), 3);
    assert!(ledger.debit_one(1));
    assert!(ledger.debit_one(1));
    assert!(ledger.debit_one(1));
    assert!(!ledger.debit_one(1));
    assert_eq!(ledger.get_or_create_balance(1), 0);
}

#[test]
fn debit_series_succeeds_min_of_attempts_and_balance() {
    let mut ledger = Ledger::new();
    ledger.get_or_create_balance(2);
    ledger.debit_one(2);
    // balance 2; five attempts must yield exactly two successes
    let mut successes = 0;
    for _ in 0..5 {
        if ledger.debit_one(2) {
            successes += 1;
        }
    }
    assert_eq!(successes, 2);
    assert_eq!(ledger.get_or_create_balance(2), 0);
}

#[test]
fn debit_without_record_fails() {
    let mut ledger = Ledger::new();
    assert!(!ledger.debit_one(99));
    assert!(ledger.lookup(99).is_none());
}

#[test]
fn credit_adds_and_reports_overflow() {
    let mut ledger = Ledger::new();
    ledger.get_or_create_balance(5);
    assert!(ledger.credit(5, 10).is_ok());
    assert_eq!(ledger.get_or_create_balance(5), STARTING_GRANT + 10);
    assert!(ledger.credit(5, u64::MAX).is_err());
    assert_eq!(ledger.get_or_create_balance(5), STARTING_GRANT + 10);
}

#[test]
fn credit_to_missing_record_changes_nothing() {
    let mut ledger = Ledger::new();
    assert!(ledger.credit(42, 4).is_ok());
    assert!(ledger.lookup(42).is_none());
}

#[test]
fn self_referral_is_refused() {
    let mut ledger = Ledger::new();
    assert!(!ledger.register_referral(8, 8));
    assert!(ledger.lookup(8).is_none());
    ledger.get_or_create_balance(8);
    assert!(!ledger.register_referral(8, 8));
    assert_eq!(ledger.lookup(8).unwrap().referrer, None);
}

#[test]
fn referral_is_write_once() {
    let mut ledger = Ledger::new();
    ledger.get_or_create_balance(20);
    assert!(ledger.register_referral(10, 20));
    assert_eq!(ledger.lookup(10).unwrap().referrer, Some(20));
    assert!(!ledger.register_referral(10, 30));
    assert_eq!(ledger.lookup(10).unwrap().referrer, Some(20));
}

#[test]
fn referral_grants_both_bonuses() {
    let mut ledger = Ledger::new();
    ledger.get_or_create_balance(20);
    assert!(ledger.register_referral(10, 20));
    let invitee = ledger.lookup(10).unwrap();
    assert_eq!(invitee.balance, STARTING_GRANT + INVITEE_BONUS);
    let inviter = ledger.lookup(20).unwrap();
    assert_eq!(inviter.balance, STARTING_GRANT + INVITER_BONUS);
}

#[test]
fn referral_of_existing_account_without_referrer() {
    let mut ledger = Ledger::new();
    ledger.get_or_create_balance(11);
    ledger.get_or_create_balance(21);
    assert!(ledger.register_referral(11, 21));
    assert_eq!(ledger.lookup(11).unwrap().balance, STARTING_GRANT + INVITEE_BONUS);
    assert_eq!(ledger.lookup(11).unwrap().referrer, Some(21));
    assert_eq!(ledger.lookup(21).unwrap().balance, STARTING_GRANT + INVITER_BONUS);
}

#[test]
fn referral_with_absent_inviter_credits_nobody_else() {
    let mut ledger = Ledger::new();
    assert!(ledger.register_referral(10, 77));
    assert_eq!(ledger.lookup(10).unwrap().balance, STARTING_GRANT + INVITEE_BONUS);
    assert!(ledger.lookup(77).is_none());
}
