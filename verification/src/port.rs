//! The serial port behind a bus: `std::sync::Mutex` for exclusive access,
//! and `std::io::Read` / `std::io::Write` for the bytes. What the port
//! answers depends on the device, so these items state only what holds of
//! every outcome.
use std::io::{Error, ErrorKind, Read, Write};
use std::sync::{LockResult, Mutex, MutexGuard, PoisonError};
use vstd::prelude::*;

verus! {

#[verifier::external_type_specification]
#[verifier::external_body]
#[verifier::reject_recursive_types(T)]
pub struct ExMutex<T: ?Sized>(Mutex<T>);

#[verifier::external_type_specification]
#[verifier::external_body]
#[verifier::reject_recursive_types(T)]
pub struct ExMutexGuard<'a, T: ?Sized + 'a>(MutexGuard<'a, T>);

#[verifier::external_type_specification]
#[verifier::external_body]
#[verifier::reject_recursive_types(T)]
pub struct ExPoisonError<T>(PoisonError<T>);

#[verifier::external_type_specification]
#[verifier::external_body]
pub struct ExIoError(Error);

/// Calls `std::sync::Mutex::new`, which wraps `port` in a new, unlocked
/// mutex. Nothing is stated of the mutex, which Verus cannot look into.
#[verifier::external_body]
pub(crate) fn new_port_lock<T>(port: T) -> Mutex<T> {
    Mutex::new(port)
}

/// Calls `std::sync::Mutex::lock`, which blocks until this thread holds the
/// port, and returns the guard, or, where another thread panicked while
/// holding the port, a poison error that carries the guard. Which of the two
/// comes back depends on other threads, so nothing is stated.
#[verifier::external_body]
pub(crate) fn lock_port<T>(port: &Mutex<T>) -> LockResult<MutexGuard<'_, T>> {
    port.lock()
}

/// Calls `std::sync::PoisonError::into_inner`, which gives the guard that a
/// poison error carries.
#[verifier::external_body]
pub(crate) fn guard_of_poisoned<'a, T>(poisoned: PoisonError<MutexGuard<'a, T>>) -> MutexGuard<'a, T> {
    poisoned.into_inner()
}

/// Calls `std::io::Write::write` on the locked port, which writes some
/// prefix of `data` and returns its length, or fails. Both depend on the
/// port, which the library's user supplies, so nothing is stated.
#[verifier::external_body]
pub(crate) fn port_write<T: Write>(port: &mut MutexGuard<'_, T>, data: &[u8]) -> Result<usize, Error> {
    port.write(data)
}

/// Calls `std::io::Write::flush` on the locked port. Whether it succeeds
/// depends on the device, so nothing is stated.
#[verifier::external_body]
pub(crate) fn port_flush<T: Write>(port: &mut MutexGuard<'_, T>) -> Result<(), Error> {
    port.flush()
}

/// Calls `std::io::Read::read_exact` on the locked port, which fills all of
/// `buf` or fails. The length of `buf` cannot change; the bytes read depend
/// on the device and are not stated.
#[verifier::external_body]
pub(crate) fn port_read_exact<T: Read>(port: &mut MutexGuard<'_, T>, buf: &mut [u8]) -> (r:
    Result<(), Error>)
    ensures
        final(buf)@.len() == old(buf)@.len(),
{
    port.read_exact(buf)
}

/// Calls `std::io::Error::new` with `ErrorKind::InvalidData` and `msg`.
/// Verus cannot look into the error, so nothing is stated of it.
#[verifier::external_body]
pub(crate) fn invalid_data_error(msg: &str) -> Error {
    Error::new(ErrorKind::InvalidData, msg)
}

} // verus!
