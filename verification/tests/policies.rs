use ic_carnage_backend::error::Error;
use ic_carnage_backend::identity::AccountIdentifier;
use ic_carnage_backend::policy::{
    authorize_privileged_mint, compute_token_amount, TOKENS_PER_PAID_UNIT,
};

#[test]
fn one_paid_unit_mints_four() {
    assert_eq!(TOKENS_PER_PAID_UNIT, 4);
    assert_eq!(compute_token_amount(1), Ok(4));
}

#[test]
fn conversion_is_exact() {
    assert_eq!(compute_token_amount(0), Ok(0));
    assert_eq!(compute_token_amount(25), Ok(100));
    assert_eq!(compute_token_amount(100_000_000), Ok(400_000_000));
    assert_eq!(compute_token_amount(u64::MAX / 4), Ok(u64::MAX - 3));
}

#[test]
fn conversion_that_overflows_is_rejected() {
    assert_eq!(compute_token_amount(u64::MAX / 4 + 1), Err(Error::InvalidAmount));
    assert_eq!(compute_token_amount(u64::MAX), Err(Error::InvalidAmount));
    assert_eq!(compute_token_amount(1 << 62), Err(Error::InvalidAmount));
}

#[test]
fn conversion_grows_with_the_payment() {
    let payments = [0u64, 1, 2, 3, 1000, 1 << 40, u64::MAX / 4 - 1, u64::MAX / 4];
    for pair in payments.windows(2) {
        let smaller = compute_token_amount(pair[0]).unwrap();
        let larger = compute_token_amount(pair[1]).unwrap();
        assert!(smaller < larger);
    }
}

#[test]
fn only_the_service_itself_is_authorized() {
    let service = AccountIdentifier::from_bytes(vec![1, 1, 1]).unwrap();
    let itself = AccountIdentifier::from_bytes(vec![1, 1, 1]).unwrap();
    let stranger = AccountIdentifier::from_bytes(vec![1, 1, 2]).unwrap();
    let anonymous = AccountIdentifier::from_bytes(vec![4]).unwrap();
    assert!(authorize_privileged_mint(&itself, &service));
    assert!(!authorize_privileged_mint(&stranger, &service));
    assert!(!authorize_privileged_mint(&anonymous, &service));
}
