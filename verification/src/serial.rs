//! Key and keyring identifiers.
//!
//! The kernel names every key and keyring by a signed 32-bit serial. Zero is
//! never a valid serial; negative values address the well-known special
//! keyrings. Absent optional serials are sent to the kernel as the sentinel
//! zero.

use vstd::prelude::*;

verus! {

/// A key permission mask: four six-bit subject-class fields.
pub type KeyPermissions = u32;

/// A key timeout in seconds, passed to the kernel unchanged.
pub type TimeoutSeconds = u32;

/// The serial of a key or keyring: a nonzero signed 32-bit integer.
#[derive(Debug, Clone, Copy, PartialEq, Eq, Hash, Structural)]
pub struct KeyringSerial {
    serial: i32,
}

impl KeyringSerial {
    /// The raw serial value.
    pub closed spec fn spec_get(self) -> i32 {
        self.serial
    }

    #[verifier::type_invariant]
    spec fn inv(self) -> bool {
        self.serial != 0
    }

    /// Wraps a raw serial, refusing the invalid serial zero.
    pub fn new(serial: i32) -> (r: Option<KeyringSerial>)
        ensures
            serial != 0 ==> (r matches Some(s) && s.spec_get() == serial),
            serial == 0 ==> r is None,
    {
        if serial == 0 {
            None
        } else {
            Some(KeyringSerial { serial })
        }
    }

    /// Wraps a raw serial already known to be nonzero.
    pub(crate) fn nonzero(serial: i32) -> (r: KeyringSerial)
        requires
            serial != 0,
        ensures
            r.spec_get() == serial,
    {
        KeyringSerial { serial }
    }

    /// The raw serial value; never zero.
    pub fn get(self) -> (r: i32)
        ensures
            r == self.spec_get(),
            r != 0,
    {
        proof {
            use_type_invariant(self);
        }
        self.serial
    }
}

/// Maps an optional serial to the kernel's sentinel: zero when absent.
pub fn opt_key_serial(opt: Option<KeyringSerial>) -> (r: i32)
    ensures
        opt matches Some(id) ==> r == id.spec_get(),
        opt is None ==> r == 0,
{
    match opt {
        Some(id) => id.get(),
        None => 0,
    }
}

/// A key, known by its serial.
#[derive(Debug, Clone, Copy, PartialEq, Eq, Structural)]
pub struct Key {
    id: KeyringSerial,
}

impl Key {
    /// The key's serial.
    pub closed spec fn spec_serial(self) -> KeyringSerial {
        self.id
    }

    /// Wraps a serial as a key handle.
    pub fn new(id: KeyringSerial) -> (r: Key)
        ensures
            r.spec_serial() == id,
    {
        Key { id }
    }

    /// The key's serial.
    pub fn serial(&self) -> (r: KeyringSerial)
        ensures
            r == self.spec_serial(),
    {
        self.id
    }
}

/// A keyring, known by its serial.
#[derive(Debug, Clone, Copy, PartialEq, Eq, Structural)]
pub struct Keyring {
    id: KeyringSerial,
}

impl Keyring {
    /// The keyring's serial.
    pub closed spec fn spec_serial(self) -> KeyringSerial {
        self.id
    }

    /// Wraps a serial as a keyring handle.
    pub fn new(id: KeyringSerial) -> (r: Keyring)
        ensures
            r.spec_serial() == id,
    {
        Keyring { id }
    }

    /// The keyring's serial.
    pub fn serial(&self) -> (r: KeyringSerial)
        ensures
            r == self.spec_serial(),
    {
        self.id
    }
}

} // verus!
