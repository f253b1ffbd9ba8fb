//! Interpretation of raw syscall return values.
//!
//! Every kernel call in this family returns a single signed machine word:
//! `-1` with `errno` set on failure, and on success either zero, a key
//! serial, a byte count, or a default-keyring code. The functions here turn
//! that word into the typed result of the operation, holding the kernel to
//! this layer's range assumptions and reporting any break of them as an
//! internal-consistency error (see [`crate::error::KeyError`]).

use vstd::prelude::*;

use crate::default_keyring::DefaultKeyring;
use crate::error::EINVAL;
use crate::error::KeyError;
use crate::serial::KeyringSerial;

verus! {

/// Relies on `errno::errno`: reads the calling thread's current `errno`
/// value. The value is process state, so nothing is promised of it.
#[verifier::external_body]
fn last_errno() -> i32 {
    errno::errno().0
}

/// Splits a raw return value into success and failure: `-1` means the call
/// failed and the thread's `errno` holds the cause; anything else is the
/// call's result. Must run directly after the syscall, before `errno` can
/// be overwritten.
pub fn check_syscall(res: i64) -> (r: Result<i64, KeyError>)
    ensures
        res != -1 ==> (r matches Ok(v) && v == res),
        res == -1 ==> (r matches Err(e) && e matches KeyError::Errno(_)),
{
    if res == -1 {
        Err(KeyError::Errno(last_errno()))
    } else {
        Ok(res)
    }
}

/// Reads a successful return value as a key serial. A value of zero or one
/// outside 32 bits breaks the kernel's documented behaviour and comes back
/// as [`KeyError::BadId`].
pub fn keyring_serial(res: i64) -> (r: Result<KeyringSerial, KeyError>)
    ensures
        res != 0 && i32::MIN <= res <= i32::MAX ==> (r matches Ok(s) && s.spec_get() == res),
        res == 0 || res < i32::MIN || res > i32::MAX ==> r == Err::<KeyringSerial, KeyError>(
            KeyError::BadId(res),
        ),
{
    if res == 0 || res < i32::MIN as i64 || res > i32::MAX as i64 {
        Err(KeyError::BadId(res))
    } else {
        Ok(KeyringSerial::nonzero(res as i32))
    }
}

/// Reads a successful return value as a byte count. A value that no `usize`
/// can hold breaks the kernel's documented behaviour and comes back as
/// [`KeyError::BadSize`].
pub fn size(res: i64) -> (r: Result<usize, KeyError>)
    ensures
        0 <= res <= usize::MAX ==> (r matches Ok(n) && n == res),
        res < 0 || res > usize::MAX ==> r == Err::<usize, KeyError>(KeyError::BadSize(res)),
{
    if res >= 0 && res as u64 <= usize::MAX as u64 {
        Ok(res as usize)
    } else {
        Err(KeyError::BadSize(res))
    }
}

/// Reads a successful return value from an operation that reports only
/// success, where the kernel promises zero. Anything else comes back as
/// [`KeyError::UnexpectedReturn`].
pub fn ignore(res: i64) -> (r: Result<(), KeyError>)
    ensures
        res == 0 ==> r matches Ok(_),
        res != 0 ==> r == Err::<(), KeyError>(KeyError::UnexpectedReturn(res)),
{
    if res == 0 {
        Ok(())
    } else {
        Err(KeyError::UnexpectedReturn(res))
    }
}

/// Reads a successful return value as a default-keyring code. A code with
/// no defined selector comes back as [`KeyError::UnknownDefaultKeyring`].
pub fn default_keyring(res: i64) -> (r: Result<DefaultKeyring, KeyError>)
    ensures
        DefaultKeyring::spec_from_raw(res as int) matches Some(d) ==> (r matches Ok(v) && v == d),
        DefaultKeyring::spec_from_raw(res as int) is None ==> r == Err::<
            DefaultKeyring,
            KeyError,
        >(KeyError::UnknownDefaultKeyring(res)),
{
    if res == -1 {
        Ok(DefaultKeyring::NoChange)
    } else if res == 0 {
        Ok(DefaultKeyring::KernelDefault)
    } else if res == 1 {
        Ok(DefaultKeyring::Thread)
    } else if res == 2 {
        Ok(DefaultKeyring::Process)
    } else if res == 3 {
        Ok(DefaultKeyring::Session)
    } else if res == 4 {
        Ok(DefaultKeyring::User)
    } else if res == 5 {
        Ok(DefaultKeyring::UserSession)
    } else if res == 6 {
        Ok(DefaultKeyring::Group)
    } else {
        Err(KeyError::UnknownDefaultKeyring(res))
    }
}

/// Checks that a buffer length fits the kernel's 32-bit length fields; an
/// oversized length is a normal invalid-argument error.
pub fn safe_len(len: usize) -> (r: Result<u32, KeyError>)
    ensures
        len <= u32::MAX ==> (r matches Ok(n) && n == len),
        len > u32::MAX ==> r == Err::<u32, KeyError>(KeyError::Errno(EINVAL)),
{
    if len as u64 <= u32::MAX as u64 {
        Ok(len as u32)
    } else {
        Err(KeyError::Errno(EINVAL))
    }
}

/// The full result of an operation that yields a key serial.
pub fn serial_result(res: i64) -> (r: Result<KeyringSerial, KeyError>)
    ensures
        res == -1 ==> (r matches Err(e) && e matches KeyError::Errno(_)),
        res != -1 && res != 0 && i32::MIN <= res <= i32::MAX ==> (r matches Ok(s) && s.spec_get()
            == res),
        res != -1 && (res == 0 || res < i32::MIN || res > i32::MAX) ==> r == Err::<
            KeyringSerial,
            KeyError,
        >(KeyError::BadId(res)),
{
    match check_syscall(res) {
        Ok(v) => keyring_serial(v),
        Err(e) => Err(e),
    }
}

/// The full result of an operation that yields a byte count: the size
/// written, or the size required when no or too small a buffer was given.
pub fn size_result(res: i64) -> (r: Result<usize, KeyError>)
    ensures
        res == -1 ==> (r matches Err(e) && e matches KeyError::Errno(_)),
        res != -1 && 0 <= res <= usize::MAX ==> (r matches Ok(n) && n == res),
        res != -1 && (res < 0 || res > usize::MAX) ==> r == Err::<usize, KeyError>(
            KeyError::BadSize(res),
        ),
{
    match check_syscall(res) {
        Ok(v) => size(v),
        Err(e) => Err(e),
    }
}

/// The full result of an operation that reports only success.
pub fn status_result(res: i64) -> (r: Result<(), KeyError>)
    ensures
        res == -1 ==> (r matches Err(e) && e matches KeyError::Errno(_)),
        res == 0 ==> r matches Ok(_),
        res != -1 && res != 0 ==> r == Err::<(), KeyError>(KeyError::UnexpectedReturn(res)),
{
    match check_syscall(res) {
        Ok(v) => ignore(v),
        Err(e) => Err(e),
    }
}

/// The full result of a signature verification: zero means the signature
/// checked out, any other success value means it did not.
pub fn verify_result(res: i64) -> (r: Result<bool, KeyError>)
    ensures
        res == -1 ==> (r matches Err(e) && e matches KeyError::Errno(_)),
        res != -1 ==> (r matches Ok(b) && b == (res == 0)),
{
    match check_syscall(res) {
        Ok(v) => Ok(v == 0),
        Err(e) => Err(e),
    }
}

/// The full result of an operation that yields the previous default-keyring
/// selector.
pub fn default_keyring_result(res: i64) -> (r: Result<DefaultKeyring, KeyError>)
    ensures
        res == -1 ==> (r matches Err(e) && e matches KeyError::Errno(_)),
        res != -1 ==> (DefaultKeyring::spec_from_raw(res as int) matches Some(d) ==> (r matches Ok(
            v,
        ) && v == d)),
        res != -1 && DefaultKeyring::spec_from_raw(res as int) is None ==> r == Err::<
            DefaultKeyring,
            KeyError,
        >(KeyError::UnknownDefaultKeyring(res)),
{
    match check_syscall(res) {
        Ok(v) => default_keyring(v),
        Err(e) => Err(e),
    }
}

} // verus!
