//! Error values for the syscall layer.
//!
//! Two classes of failure exist and are kept apart. A recoverable error is
//! either a kernel failure, carried as the raw `errno` code, or an argument
//! this layer rejects before any syscall is attempted (an embedded NUL byte,
//! a length over the kernel's 32-bit field). An internal-consistency failure
//! is a kernel return value that breaks this layer's documented assumptions:
//! a key serial of zero or outside 32 bits, a byte count that no `usize` can
//! hold, or an unrecognized default-keyring code. The policy of this crate
//! is to surface the second class as its own typed variants, never coerced
//! into an `errno` value; callers that prefer the behaviour of aborting may
//! match on those variants and panic.

use vstd::prelude::*;

verus! {

/// The kernel's `EINVAL` code, used for arguments rejected locally.
pub const EINVAL: i32 = 22;

/// A failure of a key-management operation.
#[derive(Debug, Clone, Copy, PartialEq, Eq, Structural)]
pub enum KeyError {
    /// The syscall failed; the payload is the kernel's `errno` code.
    /// Also used, with [`EINVAL`], for arguments rejected before the call.
    Errno(i32),
    /// The kernel returned a key serial that is zero or does not fit a
    /// 32-bit integer; an internal-consistency failure.
    BadId(i64),
    /// The kernel returned a byte count that does not fit `usize`; an
    /// internal-consistency failure.
    BadSize(i64),
    /// The kernel returned a default-keyring code outside the defined
    /// selectors; an internal-consistency failure.
    UnknownDefaultKeyring(i64),
    /// The kernel returned a nonzero value from an operation that reports
    /// only success; an internal-consistency failure.
    UnexpectedReturn(i64),
}

} // verus!
