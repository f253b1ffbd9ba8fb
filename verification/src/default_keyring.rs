//! The default-keyring selector: where implicitly requested keys go.
//!
//! The kernel encodes the selector as a small integer between -1 and 6. The
//! mapping is closed: every selector has exactly one code, and a code
//! outside the defined range decodes to an internal-consistency error, never
//! to a selector.

use vstd::prelude::*;

use crate::constants::KEY_REQKEY_DEFL_DEFAULT;
use crate::constants::KEY_REQKEY_DEFL_GROUP_KEYRING;
use crate::constants::KEY_REQKEY_DEFL_NO_CHANGE;
use crate::constants::KEY_REQKEY_DEFL_PROCESS_KEYRING;
use crate::constants::KEY_REQKEY_DEFL_SESSION_KEYRING;
use crate::constants::KEY_REQKEY_DEFL_THREAD_KEYRING;
use crate::constants::KEY_REQKEY_DEFL_USER_KEYRING;
use crate::constants::KEY_REQKEY_DEFL_USER_SESSION_KEYRING;

verus! {

/// The keyring that implicitly requested keys are linked into.
#[derive(Debug, Clone, Copy, PartialEq, Eq, Structural)]
pub enum DefaultKeyring {
    /// Keep the current setting.
    NoChange,
    /// Let the kernel pick its default.
    KernelDefault,
    /// The thread keyring.
    Thread,
    /// The process keyring.
    Process,
    /// The session keyring.
    Session,
    /// The user keyring.
    User,
    /// The user session keyring.
    UserSession,
    /// The group keyring.
    Group,
}

impl DefaultKeyring {
    /// The kernel's integer code for this selector.
    pub open spec fn spec_raw(self) -> i32 {
        match self {
            DefaultKeyring::NoChange => KEY_REQKEY_DEFL_NO_CHANGE,
            DefaultKeyring::KernelDefault => KEY_REQKEY_DEFL_DEFAULT,
            DefaultKeyring::Thread => KEY_REQKEY_DEFL_THREAD_KEYRING,
            DefaultKeyring::Process => KEY_REQKEY_DEFL_PROCESS_KEYRING,
            DefaultKeyring::Session => KEY_REQKEY_DEFL_SESSION_KEYRING,
            DefaultKeyring::User => KEY_REQKEY_DEFL_USER_KEYRING,
            DefaultKeyring::UserSession => KEY_REQKEY_DEFL_USER_SESSION_KEYRING,
            DefaultKeyring::Group => KEY_REQKEY_DEFL_GROUP_KEYRING,
        }
    }

    /// The selector a kernel integer code stands for, if any.
    pub open spec fn spec_from_raw(raw: int) -> Option<DefaultKeyring> {
        if raw == KEY_REQKEY_DEFL_NO_CHANGE {
            Some(DefaultKeyring::NoChange)
        } else if raw == KEY_REQKEY_DEFL_DEFAULT {
            Some(DefaultKeyring::KernelDefault)
        } else if raw == KEY_REQKEY_DEFL_THREAD_KEYRING {
            Some(DefaultKeyring::Thread)
        } else if raw == KEY_REQKEY_DEFL_PROCESS_KEYRING {
            Some(DefaultKeyring::Process)
        } else if raw == KEY_REQKEY_DEFL_SESSION_KEYRING {
            Some(DefaultKeyring::Session)
        } else if raw == KEY_REQKEY_DEFL_USER_KEYRING {
            Some(DefaultKeyring::User)
        } else if raw == KEY_REQKEY_DEFL_USER_SESSION_KEYRING {
            Some(DefaultKeyring::UserSession)
        } else if raw == KEY_REQKEY_DEFL_GROUP_KEYRING {
            Some(DefaultKeyring::Group)
        } else {
            None
        }
    }

    /// Encodes this selector as the kernel's integer code.
    pub fn as_raw(self) -> (r: i32)
        ensures
            r == self.spec_raw(),
    {
        match self {
            DefaultKeyring::NoChange => KEY_REQKEY_DEFL_NO_CHANGE,
            DefaultKeyring::KernelDefault => KEY_REQKEY_DEFL_DEFAULT,
            DefaultKeyring::Thread => KEY_REQKEY_DEFL_THREAD_KEYRING,
            DefaultKeyring::Process => KEY_REQKEY_DEFL_PROCESS_KEYRING,
            DefaultKeyring::Session => KEY_REQKEY_DEFL_SESSION_KEYRING,
            DefaultKeyring::User => KEY_REQKEY_DEFL_USER_KEYRING,
            DefaultKeyring::UserSession => KEY_REQKEY_DEFL_USER_SESSION_KEYRING,
            DefaultKeyring::Group => KEY_REQKEY_DEFL_GROUP_KEYRING,
        }
    }
}

/// Encoding a selector and decoding the code again is the identity, for
/// every selector; and every code outside -1 ..= 6 decodes to nothing.
pub proof fn lemma_default_keyring_round_trip()
    ensures
        forall|d: DefaultKeyring| #[trigger] DefaultKeyring::spec_from_raw(
            d.spec_raw() as int,
        ) == Some(d),
        forall|raw: int|
            raw < -1 || raw > 6 ==> #[trigger] DefaultKeyring::spec_from_raw(raw) is None,
{
}

} // verus!
