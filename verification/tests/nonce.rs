use ledger_gen::nonce::{read_nonce_blockhash, NonceAccountState, NonceError, NonceTracker};
use ledger_gen::types::Blockhash;

fn value(byte: u8) -> Blockhash {
    Blockhash::new([byte; 32])
}

#[test]
fn initialized_account_gives_its_value() {
    let read = read_nonce_blockhash(&NonceAccountState::Initialized(value(3)));
    assert_eq!(read.map(|v| v.bytes), Ok([3; 32]));
}

#[test]
fn missing_account_is_an_error() {
    let read = read_nonce_blockhash(&NonceAccountState::Missing);
    assert_eq!(read.map(|v| v.bytes), Err(NonceError::AccountMissing));
}

#[test]
fn uninitialized_account_is_an_error() {
    let read = read_nonce_blockhash(&NonceAccountState::Uninitialized);
    assert_eq!(read.map(|v| v.bytes), Err(NonceError::NotInitialized));
}

#[test]
fn tracker_has_no_value_before_the_first_reading() {
    let tracker = NonceTracker::new();
    assert_eq!(tracker.value_for_signing().map(|v| v.bytes), Err(NonceError::NeverRead));
}

#[test]
fn nonce_value_serves_once() {
    let mut tracker = NonceTracker::new();
    let first = tracker.observe(&NonceAccountState::Initialized(value(1)));
    assert_eq!(first.map(|v| v.bytes), Ok([1; 32]));
    assert_eq!(tracker.value_for_signing().map(|v| v.bytes), Ok([1; 32]));
    tracker.mark_used();
    assert_eq!(tracker.value_for_signing().map(|v| v.bytes), Err(NonceError::Stale));
    let repeated = tracker.observe(&NonceAccountState::Initialized(value(1)));
    assert_eq!(repeated.map(|v| v.bytes), Err(NonceError::NotAdvanced));
    assert_eq!(tracker.value_for_signing().map(|v| v.bytes), Err(NonceError::Stale));
    let second = tracker.observe(&NonceAccountState::Initialized(value(2)));
    assert_eq!(second.map(|v| v.bytes), Ok([2; 32]));
    assert_eq!(tracker.value_for_signing().map(|v| v.bytes), Ok([2; 32]));
}

#[test]
fn reading_the_same_value_twice_before_its_use_is_no_error() {
    let mut tracker = NonceTracker::new();
    let _ = tracker.observe(&NonceAccountState::Initialized(value(1)));
    let again = tracker.observe(&NonceAccountState::Initialized(value(1)));
    assert_eq!(again.map(|v| v.bytes), Ok([1; 32]));
    assert_eq!(tracker.value_for_signing().map(|v| v.bytes), Ok([1; 32]));
}

#[test]
fn failed_reading_leaves_the_tracker_as_it_was() {
    let mut tracker = NonceTracker::new();
    let _ = tracker.observe(&NonceAccountState::Initialized(value(1)));
    let missing = tracker.observe(&NonceAccountState::Missing);
    assert_eq!(missing.map(|v| v.bytes), Err(NonceError::AccountMissing));
    let blank = tracker.observe(&NonceAccountState::Uninitialized);
    assert_eq!(blank.map(|v| v.bytes), Err(NonceError::NotInitialized));
    assert_eq!(tracker.value_for_signing().map(|v| v.bytes), Ok([1; 32]));
    assert!(!tracker.spent);
}

#[test]
fn values_that_differ_in_one_byte_are_different_values() {
    let mut bytes = [4u8; 32];
    let mut tracker = NonceTracker::new();
    let _ = tracker.observe(&NonceAccountState::Initialized(Blockhash::new(bytes)));
    tracker.mark_used();
    bytes[31] = 5;
    let next = tracker.observe(&NonceAccountState::Initialized(Blockhash::new(bytes)));
    assert_eq!(next.map(|v| v.bytes), Ok(bytes));
}
