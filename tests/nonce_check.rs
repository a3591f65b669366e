use check_nonce::{
    AccountInfo, CheckNonce, InvalidTransaction, Ledger, Pre, Val, ValidTransaction, Weight,
};

fn ledger_with(who: u64, nonce: u64) -> Ledger {
    let mut ledger = Ledger::new();
    ledger.insert(who, AccountInfo { nonce, providers: 1, sufficients: 0 });
    ledger
}

fn tag(who: u64, nonce: u64) -> Vec<u8> {
    let mut bytes = who.to_le_bytes().to_vec();
    bytes.extend_from_slice(&nonce.to_le_bytes());
    bytes
}

fn check_weight() -> Weight {
    Weight::from_parts(1_000, 64)
}

#[test]
fn stale_claim_is_rejected_and_ledger_unchanged() {
    let ledger = ledger_with(7, 3);
    let r = CheckNonce::from(2).validate(Some(7), &ledger, check_weight());
    assert_eq!(r, Err(InvalidTransaction::Stale));
    assert_eq!(ledger.get(7), AccountInfo { nonce: 3, providers: 1, sufficients: 0 });
}

#[test]
fn commit_at_current_nonce_advances_by_one() {
    let mut ledger = ledger_with(7, 4);
    ledger.insert(8, AccountInfo { nonce: 9, providers: 2, sufficients: 1 });
    let check = CheckNonce::from(4);
    let (validity, val) = check.validate(Some(7), &ledger, check_weight()).unwrap();
    assert!(validity.requires.is_empty());
    assert_eq!(val, Val::CheckNonce((7, 4)));
    assert_eq!(check.prepare(val, &mut ledger), Ok(Pre::NonceChecked));
    assert_eq!(ledger.get(7), AccountInfo { nonce: 5, providers: 1, sufficients: 0 });
    assert_eq!(ledger.get(8), AccountInfo { nonce: 9, providers: 2, sufficients: 1 });
}

#[test]
fn replay_after_commit_is_stale() {
    let mut ledger = ledger_with(3, 10);
    let check = CheckNonce::from(10);
    for _ in 0..3 {
        assert!(check.validate(Some(3), &ledger, check_weight()).is_ok());
    }
    let (_, val) = check.validate(Some(3), &ledger, check_weight()).unwrap();
    assert_eq!(check.prepare(val, &mut ledger), Ok(Pre::NonceChecked));
    assert_eq!(
        check.validate(Some(3), &ledger, check_weight()),
        Err(InvalidTransaction::Stale)
    );
}

#[test]
fn gap_requires_tag_of_previous_nonce() {
    let ledger = ledger_with(1, 2);
    let (validity, val) = CheckNonce::from(5).validate(Some(1), &ledger, check_weight()).unwrap();
    assert_eq!(validity.requires, vec![tag(1, 4)]);
    assert_eq!(validity.provides, vec![tag(1, 5)]);
    assert_eq!(validity.priority, 0);
    assert_eq!(validity.longevity, u64::MAX);
    assert!(validity.propagate);
    assert_eq!(val, Val::CheckNonce((1, 2)));
}

#[test]
fn claim_equal_to_current_requires_nothing() {
    let ledger = ledger_with(1, 6);
    let (validity, _) = CheckNonce::from(6).validate(Some(1), &ledger, check_weight()).unwrap();
    assert!(validity.requires.is_empty());
    assert_eq!(validity.provides, vec![tag(1, 6)]);
}

#[test]
fn future_claim_is_accepted_then_rejected_at_prepare() {
    let mut ledger = ledger_with(2, 5);
    let check = CheckNonce::from(7);
    let (validity, val) = check.validate(Some(2), &ledger, check_weight()).unwrap();
    assert_eq!(validity.requires, vec![tag(2, 6)]);
    assert_eq!(check.prepare(val, &mut ledger), Err(InvalidTransaction::Future));
    assert_eq!(ledger.get(2).nonce, 5);
}

#[test]
fn unsigned_origin_skips_ledger_and_refunds() {
    let mut ledger = ledger_with(2, 5);
    let check = CheckNonce::from(0);
    let (validity, val) = check.validate(None, &ledger, check_weight()).unwrap();
    assert_eq!(validity, ValidTransaction::default());
    assert!(validity.requires.is_empty());
    assert!(validity.provides.is_empty());
    assert_eq!(val, Val::Refund(check_weight()));
    let pre = check.prepare(val, &mut ledger).unwrap();
    assert_eq!(pre, Pre::Refund(check_weight()));
    assert_eq!(ledger.get(2).nonce, 5);
    assert_eq!(CheckNonce::post_dispatch_details(pre), Ok(check_weight()));
}

#[test]
fn validate_twice_gives_the_same_outcome() {
    let ledger = ledger_with(4, 1);
    let check = CheckNonce::from(3);
    let first = check.validate(Some(4), &ledger, check_weight());
    let second = check.validate(Some(4), &ledger, check_weight());
    assert_eq!(first, second);
    assert_eq!(ledger.get(4).nonce, 1);
}

#[test]
fn checked_nonce_refunds_nothing() {
    assert_eq!(CheckNonce::post_dispatch_details(Pre::NonceChecked), Ok(Weight::zero()));
    assert_eq!(Weight::zero(), Weight::from_parts(0, 0));
}

#[test]
fn unknown_account_starts_at_zero() {
    let mut ledger = Ledger::new();
    assert_eq!(ledger.get(9), AccountInfo { nonce: 0, providers: 0, sufficients: 0 });
    let check = CheckNonce::from(0);
    let (validity, val) = check.validate(Some(9), &ledger, check_weight()).unwrap();
    assert!(validity.requires.is_empty());
    assert_eq!(check.prepare(val, &mut ledger), Ok(Pre::NonceChecked));
    assert_eq!(ledger.get(9).nonce, 1);
}

#[test]
fn unfunded_account_may_still_transact() {
    let mut ledger = Ledger::new();
    ledger.insert(5, AccountInfo { nonce: 2, providers: 0, sufficients: 0 });
    let check = CheckNonce::from(2);
    let (_, val) = check.validate(Some(5), &ledger, check_weight()).unwrap();
    assert_eq!(check.prepare(val, &mut ledger), Ok(Pre::NonceChecked));
    assert_eq!(ledger.get(5), AccountInfo { nonce: 3, providers: 0, sufficients: 0 });
}

#[test]
fn tag_is_scale_encoding_of_account_and_nonce() {
    let ledger = ledger_with(0x0102, 7);
    let (validity, _) = CheckNonce::from(7).validate(Some(0x0102), &ledger, check_weight()).unwrap();
    assert_eq!(
        validity.provides,
        vec![vec![2, 1, 0, 0, 0, 0, 0, 0, 7, 0, 0, 0, 0, 0, 0, 0]]
    );
}

#[test]
fn largest_claim_beyond_ledger_is_future() {
    let mut ledger = ledger_with(6, u64::MAX - 1);
    let check = CheckNonce::from(u64::MAX);
    let (validity, val) = check.validate(Some(6), &ledger, check_weight()).unwrap();
    assert_eq!(validity.requires, vec![tag(6, u64::MAX - 1)]);
    assert_eq!(check.prepare(val, &mut ledger), Err(InvalidTransaction::Future));
}

#[test]
fn set_nonce_keeps_rest_of_record() {
    let mut ledger = Ledger::new();
    ledger.insert(1, AccountInfo { nonce: 4, providers: 3, sufficients: 2 });
    ledger.set_nonce(1, 11);
    assert_eq!(ledger.get(1), AccountInfo { nonce: 11, providers: 3, sufficients: 2 });
    assert_eq!(CheckNonce::from(11).0, 11);
}

#[test]
fn distinct_slots_have_distinct_tags() {
    let mut ledger = ledger_with(1, 256);
    ledger.insert(256, AccountInfo { nonce: 1, providers: 1, sufficients: 0 });
    let (a, _) = CheckNonce::from(256).validate(Some(1), &ledger, check_weight()).unwrap();
    let (b, _) = CheckNonce::from(1).validate(Some(256), &ledger, check_weight()).unwrap();
    assert_ne!(a.provides, b.provides);
    assert_eq!(a.provides, vec![tag(1, 256)]);
    assert_eq!(b.provides, vec![tag(256, 1)]);
}
