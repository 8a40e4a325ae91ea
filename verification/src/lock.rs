//! The spin lock that guards the object behind a capability.
use vstd::prelude::*;
use std::sync::Arc;

verus! {

#[verifier::external_type_specification]
#[verifier::external_body]
#[verifier::reject_recursive_types(T)]
#[verifier::reject_recursive_types(R)]
pub struct ExSpinMutex<T: ?Sized, R>(spin::mutex::Mutex<T, R>);

#[verifier::external_type_specification]
#[verifier::external_body]
pub struct ExSpinRelax(spin::relax::Spin);

#[verifier::external_type_specification]
#[verifier::external_body]
#[verifier::reject_recursive_types(T)]
pub struct ExSpinMutexGuard<'a, T: 'a + ?Sized>(spin::MutexGuard<'a, T>);

/// Wraps `spin::Mutex::new`: a fresh, unlocked mutex that holds `value`.
/// Nothing is stated of the result: what the mutex holds is not visible here.
#[verifier::external_body]
pub(crate) fn new_mutex<T>(value: T) -> (m: spin::Mutex<T>)
{
    spin::Mutex::new(value)
}

/// Wraps `spin::Mutex::try_lock`: a guard where the lock was free, `None`
/// where another holder has it. Which of the two comes back depends on what
/// other threads do, so nothing is stated of it.
#[verifier::external_body]
pub(crate) fn try_lock<'a, T>(m: &'a spin::Mutex<T>) -> (r: Option<spin::MutexGuard<'a, T>>)
{
    m.try_lock()
}

/// Wraps `Arc::ptr_eq` on two handles on spin mutexes: true exactly when
/// both point at one allocation. A mutex is a lock, not a value: Verus sees
/// a `spin::Mutex` as opaque, with nothing in it to compare, so two handles
/// hold equal mutexes exactly when they hold one and the same mutex, that is
/// when they point at one allocation.
#[verifier::external_body]
pub(crate) fn same_allocation<T>(a: &Arc<spin::Mutex<T>>, b: &Arc<spin::Mutex<T>>) -> (r: bool)
    ensures r <==> *a == *b,
{
    Arc::ptr_eq(a, b)
}

/// Wraps `Deref::deref` of `spin::MutexGuard`: the object the held lock guards.
/// What the object holds is not visible here, so nothing is stated of it.
#[verifier::external_body]
pub(crate) fn guarded<'b, 'a, T>(g: &'b spin::MutexGuard<'a, T>) -> (r: &'b T)
{
    &**g
}

/// Wraps `DerefMut::deref_mut` of `spin::MutexGuard`: the object the held lock
/// guards, for writing. Nothing is stated of what it holds.
#[verifier::external_body]
pub(crate) fn guarded_mut<'b, 'a, T>(g: &'b mut spin::MutexGuard<'a, T>) -> (r: &'b mut T)
{
    &mut **g
}

} // verus!
