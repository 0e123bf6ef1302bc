//! Formatted output to a writer that several parts of a program share
//! behind a spin lock.

use vstd::prelude::*;
use core::ops::DerefMut;
use spin::Mutex;
use spin::MutexGuard;
use crate::writer::Writer;

verus! {

/// `spin::Mutex`, a lock that waits by spinning. What it protects is not
/// visible to the proofs.
#[verifier::external_type_specification]
#[verifier::external_body]
#[verifier::reject_recursive_types(T)]
pub struct ExMutex<T: ?Sized>(Mutex<T>);

/// `spin::MutexGuard`, the lease on what a `spin::Mutex` protects. Dropping
/// it releases the lock.
#[verifier::external_type_specification]
#[verifier::external_body]
#[verifier::reject_recursive_types(T)]
pub struct ExMutexGuard<'a, T: ?Sized + 'a>(MutexGuard<'a, T>);

/// `core::fmt::Arguments`, a format string with its arguments, not yet
/// rendered.
#[verifier::external_type_specification]
#[verifier::external_body]
pub struct ExArguments<'a>(core::fmt::Arguments<'a>);

/// `spin::Mutex::lock` spins until the lock is free, takes it and returns
/// the guard. Nothing is claimed of the value behind the guard: another
/// holder may have changed it.
pub assume_specification<T: ?Sized>[ Mutex::<T>::lock ](mutex: &Mutex<T>) -> (guard: MutexGuard<
    '_,
    T,
>)
;

/// `MutexGuard::deref_mut` lends the protected value for as long as the
/// guard is borrowed.
pub assume_specification<'a, 'b, T: ?Sized>[ <MutexGuard<'a, T> as DerefMut>::deref_mut ](
    guard: &'b mut MutexGuard<'a, T>,
) -> (target: &'b mut T)
;

/// `core::fmt::write` renders the arguments piece by piece into the writer
/// through its `write_str`, and fails when the formatting of an argument
/// fails. Nothing is claimed of what the pieces are.
#[verifier::external_body]
fn write_formatted(writer: &mut Writer, args: core::fmt::Arguments<'_>) -> (result: Result<
    (),
    core::fmt::Error,
>) {
    core::fmt::write(writer, args)
}

/// Writes formatted text to a shared writer. The lock is held from before
/// the first piece of text is emitted until after the last one, so texts of
/// different callers never mix. The result is an error only when the
/// formatting of an argument failed.
///
/// The caller must not hold the lock of `writer` itself: the call would
/// never return.
pub fn _print(writer: &Mutex<Writer>, args: core::fmt::Arguments<'_>) -> (result: Result<
    (),
    core::fmt::Error,
>) {
    let mut guard = writer.lock();
    write_formatted(guard.deref_mut(), args)
}

} // verus!
