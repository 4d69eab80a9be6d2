use std::sync::PoisonError;
use vstd::prelude::*;

verus! {

#[verifier::external_type_specification]
#[verifier::external_body]
#[verifier::reject_recursive_types(T)]
pub struct ExPoisonError<T>(PoisonError<T>);

/// A process-fatal error: a lock was found poisoned by an earlier panic.
#[derive(Clone, Debug)]
pub enum MyErrors {
    MutexLockError(String),
}

/// Relies on std's `Display` for `PoisonError`: the error's message.
#[verifier::external_body]
fn poison_message<T>(e: &PoisonError<T>) -> String {
    e.to_string()
}

impl MyErrors {
    /// The fatal error for a poisoned lock, carrying the lock error's message.
    pub fn from_poison_error<T>(e: PoisonError<T>) -> (r: Self)
        ensures
            r is MutexLockError,
    {
        MyErrors::MutexLockError(poison_message(&e))
    }

    /// The error's message.
    pub fn message(&self) -> (r: String)
        ensures
            match self {
                MyErrors::MutexLockError(m) => r@ == "Failed to lock mutex: "@ + m@,
            },
    {
        match self {
            MyErrors::MutexLockError(m) => {
                let mut s = "Failed to lock mutex: ".to_owned();
                s.append(m.as_str());
                s
            },
        }
    }
}

} // verus!
