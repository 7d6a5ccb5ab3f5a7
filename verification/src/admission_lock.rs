//! The lock that lets every caller sharing the facade see one admission state.
use std::sync::Mutex;
use std::sync::MutexGuard;
use vstd::prelude::*;

use crate::execution_services_admission::ExecutionServicesAdmission;

verus! {

#[verifier::external_type_specification]
#[verifier::external_body]
#[verifier::reject_recursive_types(T)]
pub struct ExMutex<T: ?Sized>(Mutex<T>);

#[verifier::external_type_specification]
#[verifier::external_body]
#[verifier::reject_recursive_types(T)]
pub struct ExMutexGuard<'a, T: ?Sized + 'a>(MutexGuard<'a, T>);

/// Puts an admission state behind a `std::sync::Mutex` (`Mutex::new`).
///
/// Nothing is stated of the lock: what a later lock hands out depends on
/// every caller that shares it.
#[verifier::external_body]
pub(crate) fn new_admission_lock(admission: ExecutionServicesAdmission) -> Mutex<ExecutionServicesAdmission> {
    Mutex::new(admission)
}

/// Locks the admission state (`Mutex::lock`), recovering the last recorded
/// admission state if a previous holder panicked (`PoisonError::into_inner`).
///
/// Nothing is stated of the guard: the admission state it holds is whatever the callers
/// sharing the lock last left in it.
#[verifier::external_body]
pub(crate) fn lock_admission(
    lock: &Mutex<ExecutionServicesAdmission>,
) -> MutexGuard<'_, ExecutionServicesAdmission> {
    match lock.lock() {
        Ok(guard) => guard,
        Err(poisoned) => poisoned.into_inner(),
    }
}

/// Reads the admission state held by a guard (`Deref` of `MutexGuard`).
///
/// Nothing is stated of the admission state returned.
#[verifier::external_body]
pub(crate) fn guarded_admission<'a, 'b>(
    guard: &'a MutexGuard<'b, ExecutionServicesAdmission>,
) -> &'a ExecutionServicesAdmission {
    &**guard
}

/// Borrows the admission state held by a guard for update (`DerefMut` of `MutexGuard`).
///
/// Nothing is stated of the admission state's value before the update.
#[verifier::external_body]
pub(crate) fn guarded_admission_mut<'a, 'b>(
    guard: &'a mut MutexGuard<'b, ExecutionServicesAdmission>,
) -> &'a mut ExecutionServicesAdmission {
    &mut **guard
}

} // verus!
