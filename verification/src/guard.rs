//! Guards that own the lock they hold.
//!
//! A guard of std borrows its lock. The guards used here, those of the guardian
//! crate, keep the `Arc` of the lock beside the guard of std, so they can be
//! held for as long as a tensor needs them.

use vstd::prelude::*;

use guardian::{ArcMutexGuardian, ArcRwLockWriteGuardian};
use std::ops::{Deref, DerefMut};
use std::sync::{Arc, Mutex, PoisonError, RwLock};

verus! {

/// std's mutex, of which nothing is said here: what it protects can change
/// whenever it is not held.
#[verifier::external_type_specification]
#[verifier::external_body]
#[verifier::reject_recursive_types(T)]
pub struct ExMutex<T: ?Sized>(std::sync::Mutex<T>);

/// std's reader-writer lock, of which nothing is said here: what it protects can
/// change whenever it is not held.
#[verifier::external_type_specification]
#[verifier::external_body]
#[verifier::reject_recursive_types(T)]
pub struct ExRwLock<T: ?Sized>(std::sync::RwLock<T>);

/// std's report that a thread panicked while it held a lock.
#[verifier::external_type_specification]
#[verifier::external_body]
#[verifier::reject_recursive_types(T)]
pub struct ExPoisonError<T>(std::sync::PoisonError<T>);

/// guardian's guard of a mutex.
#[verifier::external_type_specification]
#[verifier::external_body]
#[verifier::reject_recursive_types(T)]
pub struct ExArcMutexGuardian<T: ?Sized + 'static>(guardian::ArcMutexGuardian<T>);

/// guardian's guard of a reader-writer lock that is held for writing.
#[verifier::external_type_specification]
#[verifier::external_body]
#[verifier::reject_recursive_types(T)]
pub struct ExArcRwLockWriteGuardian<T: ?Sized + 'static>(guardian::ArcRwLockWriteGuardian<T>);

/// `ArcMutexGuardian::try_take` is declared so that [`holds_mutex`] can speak of the
/// guards that it builds for a mutex. Nothing is claimed of it here.
pub assume_specification<T: ?Sized>[ ArcMutexGuardian::<T>::try_take ](handle: Arc<Mutex<T>>) -> (lock:
    Option<Result<ArcMutexGuardian<T>, PoisonError<ArcMutexGuardian<T>>>>);

/// `ArcRwLockWriteGuardian::try_take` is declared so that [`holds_rwlock`] can speak
/// of the guards that it builds for a lock. Nothing is claimed of it here.
pub assume_specification<T: ?Sized>[ ArcRwLockWriteGuardian::<T>::try_take ](
    handle: Arc<RwLock<T>>,
) -> (lock: Option<Result<ArcRwLockWriteGuardian<T>, PoisonError<ArcRwLockWriteGuardian<T>>>>);

/// `ArcMutexGuardian::take` waits for the mutex and returns its guard, or returns
/// it inside an error where the mutex is poisoned. The guard is one that `try_take`
/// can return for the mutex: both build it from the mutex in the same way. Whether
/// the mutex is poisoned, and what it then protects, depends on what other threads
/// did, so nothing is promised of that. The call does not return, or panics, where
/// the calling thread holds the mutex already.
pub assume_specification<T: ?Sized>[ ArcMutexGuardian::<T>::take ](handle: Arc<Mutex<T>>) -> (lock:
    Result<ArcMutexGuardian<T>, PoisonError<ArcMutexGuardian<T>>>)
    ensures
        lock matches Ok(guard) ==> call_ensures(
            ArcMutexGuardian::<T>::try_take,
            (handle,),
            Some(Ok::<ArcMutexGuardian<T>, PoisonError<ArcMutexGuardian<T>>>(guard)),
        ),
;

/// `ArcRwLockWriteGuardian::take` waits until it can hold the lock for writing and
/// returns its guard, or returns it inside an error where the lock is poisoned. The
/// guard is one that `try_take` can return for the lock: both build it from the lock
/// in the same way. Whether the lock is poisoned, and what it then protects,
/// depends on what other threads did, so nothing is promised of that. The call does
/// not return, or panics, where the calling thread holds the lock already.
pub assume_specification<T: ?Sized>[ ArcRwLockWriteGuardian::<T>::take ](
    handle: Arc<RwLock<T>>,
) -> (lock: Result<ArcRwLockWriteGuardian<T>, PoisonError<ArcRwLockWriteGuardian<T>>>)
    ensures
        lock matches Ok(guard) ==> call_ensures(
            ArcRwLockWriteGuardian::<T>::try_take,
            (handle,),
            Some(Ok::<ArcRwLockWriteGuardian<T>, PoisonError<ArcRwLockWriteGuardian<T>>>(guard)),
        ),
;

/// What `deref` returns for `pointer`.
pub closed spec fn target<P: Deref + ?Sized>(pointer: &P) -> &P::Target {
    choose|r: &P::Target| call_ensures(P::deref, (pointer,), r)
}

/// `guard` holds `mutex`: it is a guard that an attempt to take the mutex can return,
/// whatever the mutex protects.
pub open spec fn holds_mutex<T: 'static>(guard: ArcMutexGuardian<T>, mutex: Arc<Mutex<T>>) -> bool {
    call_ensures(
        ArcMutexGuardian::<T>::try_take,
        (mutex,),
        Some(Ok::<ArcMutexGuardian<T>, PoisonError<ArcMutexGuardian<T>>>(guard)),
    )
}

/// `guard` holds `lock` for writing: it is a guard that an attempt to take the lock
/// can return, whatever the lock protects.
pub open spec fn holds_rwlock<T: 'static>(
    guard: ArcRwLockWriteGuardian<T>,
    lock: Arc<RwLock<T>>,
) -> bool {
    call_ensures(
        ArcRwLockWriteGuardian::<T>::try_take,
        (lock,),
        Some(Ok::<ArcRwLockWriteGuardian<T>, PoisonError<ArcRwLockWriteGuardian<T>>>(guard)),
    )
}

/// `Deref` of `ArcMutexGuardian`: nobody else can change what the mutex protects
/// while the guard lives, so that value is a function of the guard.
#[verifier::external_body]
fn mutex_value<T: 'static>(guard: &ArcMutexGuardian<T>) -> (value: &T)
    ensures
        value == target(guard),
{
    guard.deref()
}

/// `DerefMut` of `ArcMutexGuardian`: it gives access to the protected value, and
/// what is left there is what the guard protects from then on. The guard goes on
/// holding the same mutex.
#[verifier::external_body]
fn mutex_value_mut<T: 'static>(guard: &mut ArcMutexGuardian<T>) -> (value: &mut T)
    ensures
        *value == *target(old(guard)),
        *final(value) == *target(final(guard)),
        forall|mutex: Arc<Mutex<T>>| #[trigger]
            holds_mutex(*final(guard), mutex) == holds_mutex(*old(guard), mutex),
{
    guard.deref_mut()
}

/// `Deref` of `ArcRwLockWriteGuardian`: nobody else can change what the lock
/// protects while the guard lives, so that value is a function of the guard.
#[verifier::external_body]
fn rwlock_value<T: 'static>(guard: &ArcRwLockWriteGuardian<T>) -> (value: &T)
    ensures
        value == target(guard),
{
    guard.deref()
}

/// `DerefMut` of `ArcRwLockWriteGuardian`: it gives access to the protected value,
/// and what is left there is what the guard protects from then on. The guard goes
/// on holding the same lock.
#[verifier::external_body]
fn rwlock_value_mut<T: 'static>(guard: &mut ArcRwLockWriteGuardian<T>) -> (value: &mut T)
    ensures
        *value == *target(old(guard)),
        *final(value) == *target(final(guard)),
        forall|lock: Arc<RwLock<T>>| #[trigger]
            holds_rwlock(*final(guard), lock) == holds_rwlock(*old(guard), lock),
{
    guard.deref_mut()
}

/// A guard that gives its holder sole access to a value.
pub trait Guard: Sized {
    /// The type of the protected value.
    type Value;

    /// The type of the lock.
    type Lock;

    /// The protected value.
    spec fn contents(self) -> Self::Value;

    /// The guard holds `lock`.
    spec fn holds(self, lock: Self::Lock) -> bool;

    /// Reads the protected value.
    fn value(&self) -> (value: &Self::Value)
        ensures
            *value == self.contents(),
    ;

    /// Gives access to the protected value. What is left there is what the guard
    /// protects from then on, and it goes on holding the same lock.
    fn value_mut(&mut self) -> (value: &mut Self::Value)
        ensures
            *value == old(self).contents(),
            *final(value) == final(self).contents(),
            forall|lock: Self::Lock| #[trigger] final(self).holds(lock) == old(self).holds(lock),
    ;
}

impl<T: 'static> Guard for ArcMutexGuardian<T> {
    type Value = T;

    type Lock = Arc<Mutex<T>>;

    open spec fn contents(self) -> T {
        *target(&self)
    }

    open spec fn holds(self, lock: Arc<Mutex<T>>) -> bool {
        holds_mutex(self, lock)
    }

    fn value(&self) -> (value: &T) {
        mutex_value(self)
    }

    fn value_mut(&mut self) -> (value: &mut T) {
        mutex_value_mut(self)
    }
}

impl<T: 'static> Guard for ArcRwLockWriteGuardian<T> {
    type Value = T;

    type Lock = Arc<RwLock<T>>;

    open spec fn contents(self) -> T {
        *target(&self)
    }

    open spec fn holds(self, lock: Arc<RwLock<T>>) -> bool {
        holds_rwlock(self, lock)
    }

    fn value(&self) -> (value: &T) {
        rwlock_value(self)
    }

    fn value_mut(&mut self) -> (value: &mut T) {
        rwlock_value_mut(self)
    }
}

} // verus!
