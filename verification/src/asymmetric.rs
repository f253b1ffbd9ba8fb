//! The asymmetric key type and the keyring restrictions it offers.
//!
//! An asymmetric key carries a public key (and perhaps its private half)
//! in a format the kernel detects itself. A keyring may be restricted so
//! that it only accepts keys vouched for by trusted keys; the policy is
//! named to the kernel as a short specification string built here.

use vstd::prelude::*;

use crate::serial::Key;
use crate::serial::Keyring;
use crate::serial::KeyringSerial;
use crate::text::decimal_i32;
use crate::text::push_str;
use crate::text::spec_decimal;

verus! {

/// The kernel's asymmetric key type.
///
/// When searching for an asymmetric key, `ex:<id>` matches a key
/// identifier exactly and `id:<id>` matches it partially. A description
/// may be left empty to let the kernel pick one.
#[derive(Debug, Default, Clone, Copy, PartialEq, Eq, Structural)]
pub struct Asymmetric;

impl Asymmetric {
    /// The key type's kernel name.
    pub fn name() -> (r: &'static str)
        ensures
            r@ == "asymmetric"@,
    {
        "asymmetric"
    }
}

/// A restriction that an asymmetric key can place on a keyring.
#[derive(Debug, Clone, Copy, PartialEq, Eq, Structural)]
pub enum AsymmetricRestriction {
    /// Only keys signed by a key on the builtin trusted keyring.
    BuiltinTrusted,
    /// Only keys signed by a key on the builtin or secondary trusted
    /// keyrings.
    BuiltinAndSecondaryTrusted,
    /// Only keys signed by the given key.
    Key {
        /// The signing key.
        key: Key,
        /// Whether chaining is used (see `Chained`).
        chained: bool,
    },
    /// Only keys signed by a key on the given keyring.
    Keyring {
        /// The keyring with the permitted signing keys.
        keyring: Keyring,
        /// Whether chaining is used (see `Chained`).
        chained: bool,
    },
    /// With chaining, the destination keyring itself is also searched for
    /// signing keys, building up a chain of trust in it.
    Chained,
}

/// The specification string naming one signing key or keyring, with the
/// chain suffix when chaining is asked for.
pub open spec fn spec_restriction_str(id: int, chained: bool) -> Seq<char> {
    "key_or_keyring:"@ + spec_decimal(id) + (if chained {
        ":chain"@
    } else {
        Seq::<char>::empty()
    })
}

/// The specification string a restriction sends to the kernel.
pub open spec fn spec_restriction(r: AsymmetricRestriction) -> Seq<char> {
    match r {
        AsymmetricRestriction::BuiltinTrusted => "builtin_trusted"@,
        AsymmetricRestriction::BuiltinAndSecondaryTrusted => "builtin_and_secondary_trusted"@,
        AsymmetricRestriction::Key { key, chained } => spec_restriction_str(
            key.spec_serial().spec_get() as int,
            chained,
        ),
        AsymmetricRestriction::Keyring { keyring, chained } => spec_restriction_str(
            keyring.spec_serial().spec_get() as int,
            chained,
        ),
        AsymmetricRestriction::Chained => "key_or_keyring:0:chain"@,
    }
}

impl AsymmetricRestriction {
    /// Writes the specification string for one signing key or keyring.
    pub fn restriction_str(id: KeyringSerial, chained: bool) -> (s: String)
        ensures
            s@ == spec_restriction_str(id.spec_get() as int, chained),
    {
        let mut s = String::new();
        push_str(&mut s, "key_or_keyring:");
        let digits = decimal_i32(id.get());
        push_str(&mut s, digits.as_str());
        if chained {
            push_str(&mut s, ":chain");
        }
        assert(s@ =~= spec_restriction_str(id.spec_get() as int, chained));
        s
    }

    /// The specification string this restriction sends to the kernel.
    pub fn restriction(&self) -> (s: String)
        ensures
            s@ == spec_restriction(*self),
    {
        match self {
            AsymmetricRestriction::BuiltinTrusted => {
                let mut s = String::new();
                push_str(&mut s, "builtin_trusted");
                assert(s@ =~= "builtin_trusted"@);
                s
            },
            AsymmetricRestriction::BuiltinAndSecondaryTrusted => {
                let mut s = String::new();
                push_str(&mut s, "builtin_and_secondary_trusted");
                assert(s@ =~= "builtin_and_secondary_trusted"@);
                s
            },
            AsymmetricRestriction::Key { key, chained } => {
                Self::restriction_str(key.serial(), *chained)
            },
            AsymmetricRestriction::Keyring { keyring, chained } => {
                Self::restriction_str(keyring.serial(), *chained)
            },
            AsymmetricRestriction::Chained => {
                let mut s = String::new();
                push_str(&mut s, "key_or_keyring:0:chain");
                assert(s@ =~= "key_or_keyring:0:chain"@);
                s
            },
        }
    }
}

} // verus!
