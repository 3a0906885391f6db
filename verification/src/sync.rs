//! What the channel takes from the standard library's lock.

use std::ops::DerefMut;
use std::sync::Mutex;
use std::sync::MutexGuard;
use std::sync::PoisonError;
use std::sync::TryLockError;
use vstd::prelude::*;

verus! {

/// `std::sync::Mutex`. What it holds changes behind shared references, so a
/// value of this type says nothing about its contents.
#[verifier::external_type_specification]
#[verifier::external_body]
#[verifier::reject_recursive_types(V)]
pub struct ExMutex<V: ?Sized>(Mutex<V>);

/// `std::sync::MutexGuard`: the lock, held until the guard is dropped.
#[verifier::external_type_specification]
#[verifier::external_body]
#[verifier::reject_recursive_types(V)]
pub struct ExMutexGuard<'a, V: ?Sized + 'a>(MutexGuard<'a, V>);

/// `std::sync::PoisonError`: what a lock gives after an earlier holder
/// panicked. It still carries the guard.
#[verifier::external_type_specification]
#[verifier::external_body]
#[verifier::reject_recursive_types(G)]
pub struct ExPoisonError<G>(PoisonError<G>);

/// How one try at a lock ended.
#[verifier::reject_recursive_types(G)]
pub(crate) enum Attempt<G> {
    /// The lock was free and is now held.
    Held(G),
    /// The lock was free and is now held; an earlier holder had panicked.
    Poisoned(PoisonError<G>),
    /// Someone else holds the lock.
    Busy,
}

/// `Mutex::new` puts a value behind a new lock. Nothing is claimed of the
/// result.
pub assume_specification<T>[ Mutex::<T>::new ](t: T) -> Mutex<T>;

/// `PoisonError::into_inner` hands out the guard that the error carries.
/// Nothing is claimed of the result.
pub assume_specification<G>[ PoisonError::<G>::into_inner ](poisoned: PoisonError<G>) -> G;

/// Calls `Mutex::try_lock`, which takes the lock if it is free and returns at
/// once if it is not: it neither waits nor panics. The three ways it can end
/// are handed on as they are. Nothing is claimed of the result: which of the
/// three it is depends on the other holders.
#[verifier::external_body]
pub(crate) fn attempt<V>(cell: &Mutex<V>) -> Attempt<MutexGuard<'_, V>> {
    match cell.try_lock() {
        Ok(guard) => Attempt::Held(guard),
        Err(TryLockError::Poisoned(poisoned)) => Attempt::Poisoned(poisoned),
        Err(TryLockError::WouldBlock) => Attempt::Busy,
    }
}

/// Calls `MutexGuard`'s `deref_mut`, which gives access to the value behind
/// the held lock. Nothing is claimed of that value: it is whatever the last
/// holder left.
#[verifier::external_body]
pub(crate) fn contents<'a, 'b, V>(guard: &'a mut MutexGuard<'b, V>) -> &'a mut V {
    guard.deref_mut()
}

/// Holds the lock of `cell` if it is free, whether or not an earlier holder
/// panicked. Never waits: where someone else holds the lock, there is no
/// guard.
pub(crate) fn hold<V>(cell: &Mutex<V>) -> (guard: Option<MutexGuard<'_, V>>) {
    match attempt(cell) {
        Attempt::Held(guard) => Some(guard),
        Attempt::Poisoned(poisoned) => Some(poisoned.into_inner()),
        Attempt::Busy => None,
    }
}

} // verus!
