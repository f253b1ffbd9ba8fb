//! Typed, verified marshaling for the Linux kernel key-management facility:
//! the `add_key`, `request_key` and `keyctl` syscall family.
//!
//! The kernel fixes every numeric code, structure layout and string rule of
//! this interface; the work of a binding is to build the exact argument
//! values a call needs and to turn the raw return value back into a typed
//! result. This crate holds that logic: the constants table, the key serial
//! and default-keyring value types, NUL-terminated string construction, and
//! one marshaling function per operation, each with a contract that pins the
//! produced call down bit for bit. Issuing the syscall itself is left to the
//! (unverified) caller, which feeds the raw return value back into the
//! result-interpretation functions here.

pub mod asymmetric;
pub mod calls;
pub mod constants;
pub mod cstr;
pub mod default_keyring;
pub mod dh;
pub mod error;
pub mod pkey;
pub mod results;
pub mod serial;
pub mod text;

pub use default_keyring::DefaultKeyring;
pub use error::KeyError;
pub use serial::Key;
pub use serial::KeyPermissions;
pub use serial::Keyring;
pub use serial::KeyringSerial;
pub use serial::TimeoutSeconds;
pub use serial::opt_key_serial;