//! The shared console: one writer behind a spin lock, and the printing entry
//! point that every call site goes through.

use vstd::prelude::*;
use spin::{Mutex, MutexGuard};
use super::writer::Writer;

verus! {

/// `spin::Mutex`, a lock that waits by spinning. What it protects is out of
/// the verifier's sight.
#[verifier::external_type_specification]
#[verifier::external_body]
#[verifier::reject_recursive_types(T)]
pub struct ExMutex<T: ?Sized>(Mutex<T>);

/// `spin::MutexGuard`, the hold of a lock; dropping it releases the lock.
#[verifier::external_type_specification]
#[verifier::external_body]
#[verifier::reject_recursive_types(T)]
pub struct ExMutexGuard<'a, T: ?Sized + 'a>(MutexGuard<'a, T>);

/// `Mutex::lock`: spins until the lock is free, takes it and returns the
/// guard, which releases the lock when it is dropped. Nothing is claimed of
/// the writer behind it, which any earlier holder may have used.
#[verifier::external_body]
fn lock_console<'a>(console: &'a Mutex<Writer>) -> (guard: MutexGuard<'a, Writer>) {
    console.lock()
}

/// `MutexGuard::deref_mut`: the writer that the guard protects, for as long
/// as the guard is borrowed.
#[verifier::external_body]
fn guarded_writer<'a, 'b>(guard: &'a mut MutexGuard<'b, Writer>) -> (writer: &'a mut Writer) {
    &mut **guard
}

/// Prints `text` on the shared console. The lock is taken once, held while
/// the whole text is written by `Writer::write_string`, and released on
/// return, so texts of different callers never mix.
pub fn _print(console: &Mutex<Writer>, text: &str) {
    let mut guard = lock_console(console);
    guarded_writer(&mut guard).write_string(text);
}

} // verus!
