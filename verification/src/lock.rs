//! The lock of `parking_lot`, as far as the library uses it.
//!
//! Verus does not look into a mutex: what a lock finds behind it is whatever
//! the last holder left there. So nothing here promises anything of the value
//! protected, and the code that takes a lock is proved for every value.

use vstd::prelude::*;
use parking_lot::lock_api::Mutex;
use parking_lot::lock_api::MutexGuard;
use parking_lot::RawMutex;

verus! {

/// `parking_lot::RawMutex`, the lock inside a `parking_lot::Mutex`. Nothing is
/// claimed of it.
#[verifier::external_type_specification]
#[verifier::external_body]
pub struct ExRawMutex(RawMutex);

/// `lock_api::Mutex`, of which `parking_lot::Mutex<T>` is the instance with
/// `parking_lot::RawMutex`. Verus sees nothing of the value it protects.
#[verifier::external_type_specification]
#[verifier::external_body]
#[verifier::reject_recursive_types(R)]
#[verifier::reject_recursive_types(T)]
pub struct ExMutex<R, T: ?Sized>(Mutex<R, T>);

/// The guard that `parking_lot::Mutex::lock` returns: while it lives, its
/// holder alone reaches the protected value; dropping it unlocks. Verus sees
/// nothing of the value behind it.
#[verifier::external_body]
#[verifier::reject_recursive_types(T)]
pub(crate) struct Locked<'a, T> {
    guard: MutexGuard<'a, RawMutex, T>,
}

/// `parking_lot::Mutex::new`: an unlocked mutex that protects `value`.
/// Nothing is claimed of the result.
#[verifier::external_body]
pub(crate) fn mutex_new<T>(value: T) -> Mutex<RawMutex, T> {
    Mutex::new(value)
}

/// `parking_lot::Mutex::lock`: waits until the mutex is free and takes it.
/// Nothing is claimed of the value found behind it. The call does not return
/// if the calling thread holds the mutex already.
#[verifier::external_body]
pub(crate) fn mutex_lock<T>(mutex: &Mutex<RawMutex, T>) -> Locked<'_, T> {
    Locked { guard: mutex.lock() }
}

/// `DerefMut::deref_mut` of the guard: the protected value. Nothing is
/// claimed of it.
#[verifier::external_body]
pub(crate) fn protected<'a, 'b, T>(locked: &'a mut Locked<'b, T>) -> &'a mut T {
    &mut *locked.guard
}

} // verus!
