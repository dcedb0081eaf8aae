//! The nonce state reader, and the bookkeeping of a durable nonce on the
//! client's side.
//!
//! A nonce account stores a value that stands in for a recent blockhash. The
//! ledger replaces the value when a transaction that was signed over it
//! executes, so each value serves once. The tracker keeps the value that was
//! read last and whether it has been used up, hands it out for signing only
//! while it is fresh, and accepts a new reading after a use only if the value
//! has changed.

use crate::types::Blockhash;
use vstd::prelude::*;

verus! {

/// What a look at a nonce account found.
#[derive(Clone, Copy, Debug)]
pub enum NonceAccountState {
    /// There is no such account.
    Missing,
    /// The account exists and holds no nonce yet.
    Uninitialized,
    /// The account holds this value.
    Initialized(Blockhash),
}

/// Why no nonce value is to be had.
#[derive(Clone, Copy, Debug, PartialEq, Eq, Structural)]
pub enum NonceError {
    /// The nonce account does not exist.
    AccountMissing,
    /// The nonce account is not initialized.
    NotInitialized,
    /// A transaction signed over the value has executed and the account still
    /// holds the same value.
    NotAdvanced,
    /// The account has not been read yet.
    NeverRead,
    /// The value that was read last has been used up.
    Stale,
}

/// The value that a nonce account stores, where it is initialized; any other
/// state of the account is an error.
pub open spec fn stored_value(state: NonceAccountState) -> Result<Blockhash, NonceError> {
    match state {
        NonceAccountState::Missing => Err(NonceError::AccountMissing),
        NonceAccountState::Uninitialized => Err(NonceError::NotInitialized),
        NonceAccountState::Initialized(value) => Ok(value),
    }
}

/// Extracts the value that a nonce account stores.
pub fn read_nonce_blockhash(state: &NonceAccountState) -> (value: Result<Blockhash, NonceError>)
    ensures
        value == stored_value(*state),
{
    match state {
        NonceAccountState::Missing => Err(NonceError::AccountMissing),
        NonceAccountState::Uninitialized => Err(NonceError::NotInitialized),
        NonceAccountState::Initialized(value) => Ok(*value),
    }
}

/// The client's knowledge of one nonce account.
#[derive(Clone, Copy, Debug)]
pub struct NonceTracker {
    /// The value that was read last.
    pub value: Option<Blockhash>,
    /// Whether a transaction signed over that value has executed since.
    pub spent: bool,
}

impl NonceTracker {
    /// What a reading of the account gives, and the tracker afterwards. A
    /// reading that is no value, or that repeats a value that has been used up,
    /// is an error and leaves the tracker as it was.
    pub open spec fn read(self, state: NonceAccountState) -> (Result<Blockhash, NonceError>, NonceTracker) {
        match stored_value(state) {
            Err(error) => (Err(error), self),
            Ok(value) => if self.spent && self.value == Some(value) {
                (Err(NonceError::NotAdvanced), self)
            } else {
                (Ok(value), NonceTracker { value: Some(value), spent: false })
            },
        }
    }

    /// The value to sign the next transaction over.
    pub open spec fn fresh_value(self) -> Result<Blockhash, NonceError> {
        match self.value {
            None => Err(NonceError::NeverRead),
            Some(value) => if self.spent {
                Err(NonceError::Stale)
            } else {
                Ok(value)
            },
        }
    }

    /// The tracker after a transaction signed over its value has executed.
    pub open spec fn used(self) -> NonceTracker {
        NonceTracker { spent: true, ..self }
    }

    /// A tracker for an account that has not been read yet.
    pub fn new() -> (tracker: NonceTracker)
        ensures
            tracker == (NonceTracker { value: None, spent: false }),
    {
        NonceTracker { value: None, spent: false }
    }

    /// Takes in what a look at the account found.
    pub fn observe(&mut self, state: &NonceAccountState) -> (value: Result<Blockhash, NonceError>)
        ensures
            (value, *final(self)) == old(self).read(*state),
    {
        match read_nonce_blockhash(state) {
            Err(error) => Err(error),
            Ok(value) => {
                let repeated = match &self.value {
                    Some(last) => self.spent && last.same(&value),
                    None => false,
                };
                if repeated {
                    Err(NonceError::NotAdvanced)
                } else {
                    self.value = Some(value);
                    self.spent = false;
                    Ok(value)
                }
            },
        }
    }

    /// The value to sign the next transaction over, if there is a fresh one.
    pub fn value_for_signing(&self) -> (value: Result<Blockhash, NonceError>)
        ensures
            value == self.fresh_value(),
    {
        match self.value {
            None => Err(NonceError::NeverRead),
            Some(value) => if self.spent {
                Err(NonceError::Stale)
            } else {
                Ok(value)
            },
        }
    }

    /// Records that a transaction signed over the value has executed.
    pub fn mark_used(&mut self)
        ensures
            *final(self) == old(self).used(),
    {
        self.spent = true;
    }
}

/// A nonce value serves once. After a transaction signed over the value `V`
/// has executed, `V` is not handed out for signing again; a reading that
/// still shows `V` is refused; and a reading that is accepted shows a value
/// other than `V`, which is then the one to sign over.
pub proof fn lemma_nonce_value_serves_once(
    tracker: NonceTracker,
    value: Blockhash,
    reading: NonceAccountState,
)
    requires
        tracker.fresh_value() == Ok::<Blockhash, NonceError>(value),
    ensures
        tracker.used().fresh_value() == Err::<Blockhash, NonceError>(NonceError::Stale),
        reading == NonceAccountState::Initialized(value) ==> tracker.used().read(reading) == (
            Err::<Blockhash, NonceError>(NonceError::NotAdvanced),
            tracker.used(),
        ),
        tracker.used().read(reading).0 matches Ok(next) ==> next != value
            && tracker.used().read(reading).1.fresh_value() == Ok::<Blockhash, NonceError>(next),
{
}

} // verus!
