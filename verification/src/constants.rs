//! The kernel's fixed constants for the key-management interface: key type
//! names, special keyring serials, default-keyring selector codes, the
//! `keyctl` subcommand codes, and the 24 permission bits (six rights for
//! each of four subject classes).
//!
//! Every value here must match the kernel headers bit for bit; the proof
//! functions at the end state the structural facts the layout promises.

use vstd::prelude::*;

verus! {

/// Name of the kernel's `user` key type.
pub const KEY_TYPE_USER: &'static str = "user";
/// Name of the kernel's `logon` key type.
pub const KEY_TYPE_LOGON: &'static str = "logon";

/// Serial of the calling thread's keyring.
pub const KEY_SPEC_THREAD_KEYRING: i32 = -1;
/// Serial of the calling process's keyring.
pub const KEY_SPEC_PROCESS_KEYRING: i32 = -2;
/// Serial of the session keyring.
pub const KEY_SPEC_SESSION_KEYRING: i32 = -3;
/// Serial of the calling user's keyring.
pub const KEY_SPEC_USER_KEYRING: i32 = -4;
/// Serial of the calling user's session keyring.
pub const KEY_SPEC_USER_SESSION_KEYRING: i32 = -5;
/// Serial of the calling group's keyring.
pub const KEY_SPEC_GROUP_KEYRING: i32 = -6;
/// Serial of the authorization key for the request-key upcall in progress.
pub const KEY_SPEC_REQKEY_AUTH_KEY: i32 = -7;

/// Default-keyring selector code: keep the current setting.
pub const KEY_REQKEY_DEFL_NO_CHANGE: i32 = -1;
/// Default-keyring selector code: the kernel's default choice.
pub const KEY_REQKEY_DEFL_DEFAULT: i32 = 0;
/// Default-keyring selector code: the thread keyring.
pub const KEY_REQKEY_DEFL_THREAD_KEYRING: i32 = 1;
/// Default-keyring selector code: the process keyring.
pub const KEY_REQKEY_DEFL_PROCESS_KEYRING: i32 = 2;
/// Default-keyring selector code: the session keyring.
pub const KEY_REQKEY_DEFL_SESSION_KEYRING: i32 = 3;
/// Default-keyring selector code: the user keyring.
pub const KEY_REQKEY_DEFL_USER_KEYRING: i32 = 4;
/// Default-keyring selector code: the user session keyring.
pub const KEY_REQKEY_DEFL_USER_SESSION_KEYRING: i32 = 5;
/// Default-keyring selector code: the group keyring.
pub const KEY_REQKEY_DEFL_GROUP_KEYRING: i32 = 6;

/// Possessor may view the key's attributes.
pub const KEY_POS_VIEW: u32 = 0x01000000;
/// Possessor may read the key payload, or list a keyring.
pub const KEY_POS_READ: u32 = 0x02000000;
/// Possessor may update the key payload, or link into a keyring.
pub const KEY_POS_WRITE: u32 = 0x04000000;
/// Possessor may find the key by search, or search a keyring.
pub const KEY_POS_SEARCH: u32 = 0x08000000;
/// Possessor may make a link to the key.
pub const KEY_POS_LINK: u32 = 0x10000000;
/// Possessor may change the key's attributes.
pub const KEY_POS_SETATTR: u32 = 0x20000000;
/// All six possessor rights.
pub const KEY_POS_ALL: u32 = 0x3f000000;

/// Owning user may view the key's attributes.
pub const KEY_USR_VIEW: u32 = 0x00010000;
/// Owning user may read the key payload, or list a keyring.
pub const KEY_USR_READ: u32 = 0x00020000;
/// Owning user may update the key payload, or link into a keyring.
pub const KEY_USR_WRITE: u32 = 0x00040000;
/// Owning user may find the key by search, or search a keyring.
pub const KEY_USR_SEARCH: u32 = 0x00080000;
/// Owning user may make a link to the key.
pub const KEY_USR_LINK: u32 = 0x00100000;
/// Owning user may change the key's attributes.
pub const KEY_USR_SETATTR: u32 = 0x00200000;
/// All six owning-user rights.
pub const KEY_USR_ALL: u32 = 0x003f0000;

/// Owning group may view the key's attributes.
pub const KEY_GRP_VIEW: u32 = 0x00000100;
/// Owning group may read the key payload, or list a keyring.
pub const KEY_GRP_READ: u32 = 0x00000200;
/// Owning group may update the key payload, or link into a keyring.
pub const KEY_GRP_WRITE: u32 = 0x00000400;
/// Owning group may find the key by search, or search a keyring.
pub const KEY_GRP_SEARCH: u32 = 0x00000800;
/// Owning group may make a link to the key.
pub const KEY_GRP_LINK: u32 = 0x00001000;
/// Owning group may change the key's attributes.
pub const KEY_GRP_SETATTR: u32 = 0x00002000;
/// All six owning-group rights.
pub const KEY_GRP_ALL: u32 = 0x00003f00;

/// Third parties may view the key's attributes.
pub const KEY_OTH_VIEW: u32 = 0x00000001;
/// Third parties may read the key payload, or list a keyring.
pub const KEY_OTH_READ: u32 = 0x00000002;
/// Third parties may update the key payload, or link into a keyring.
pub const KEY_OTH_WRITE: u32 = 0x00000004;
/// Third parties may find the key by search, or search a keyring.
pub const KEY_OTH_SEARCH: u32 = 0x00000008;
/// Third parties may make a link to the key.
pub const KEY_OTH_LINK: u32 = 0x00000010;
/// Third parties may change the key's attributes.
pub const KEY_OTH_SETATTR: u32 = 0x00000020;
/// All six third-party rights.
pub const KEY_OTH_ALL: u32 = 0x0000003f;

/// `keyctl` subcommand: resolve a special keyring serial to a real one.
pub const KEYCTL_GET_KEYRING_ID: i32 = 0;
/// `keyctl` subcommand: join or create a named session keyring.
pub const KEYCTL_JOIN_SESSION_KEYRING: i32 = 1;
/// `keyctl` subcommand: replace a key's payload.
pub const KEYCTL_UPDATE: i32 = 2;
/// `keyctl` subcommand: revoke a key.
pub const KEYCTL_REVOKE: i32 = 3;
/// `keyctl` subcommand: change a key's ownership.
pub const KEYCTL_CHOWN: i32 = 4;
/// `keyctl` subcommand: change a key's permission mask.
pub const KEYCTL_SETPERM: i32 = 5;
/// `keyctl` subcommand: describe a key.
pub const KEYCTL_DESCRIBE: i32 = 6;
/// `keyctl` subcommand: clear a keyring.
pub const KEYCTL_CLEAR: i32 = 7;
/// `keyctl` subcommand: link a key into a keyring.
pub const KEYCTL_LINK: i32 = 8;
/// `keyctl` subcommand: unlink a key from a keyring.
pub const KEYCTL_UNLINK: i32 = 9;
/// `keyctl` subcommand: search a keyring for a key.
pub const KEYCTL_SEARCH: i32 = 10;
/// `keyctl` subcommand: read a key's payload.
pub const KEYCTL_READ: i32 = 11;
/// `keyctl` subcommand: instantiate a key under construction.
pub const KEYCTL_INSTANTIATE: i32 = 12;
/// `keyctl` subcommand: negatively instantiate a key under construction.
pub const KEYCTL_NEGATE: i32 = 13;
/// `keyctl` subcommand: set the default keyring for implicit key requests.
pub const KEYCTL_SET_REQKEY_KEYRING: i32 = 14;
/// `keyctl` subcommand: set a key's expiry timeout.
pub const KEYCTL_SET_TIMEOUT: i32 = 15;
/// `keyctl` subcommand: assume the authority of a request-key upcall.
pub const KEYCTL_ASSUME_AUTHORITY: i32 = 16;
/// `keyctl` subcommand: fetch a key's security context.
pub const KEYCTL_GET_SECURITY: i32 = 17;
/// `keyctl` subcommand: install the session keyring into the parent process.
pub const KEYCTL_SESSION_TO_PARENT: i32 = 18;
/// `keyctl` subcommand: negatively instantiate with a chosen error.
pub const KEYCTL_REJECT: i32 = 19;
/// `keyctl` subcommand: invalidate a key.
pub const KEYCTL_INVALIDATE: i32 = 21;
/// `keyctl` subcommand: fetch a user's persistent keyring.
pub const KEYCTL_GET_PERSISTENT: i32 = 22;
/// `keyctl` subcommand: Diffie-Hellman computation, with optional KDF.
pub const KEYCTL_DH_COMPUTE: i32 = 23;
/// `keyctl` subcommand: query an asymmetric key's capabilities.
pub const KEYCTL_PKEY_QUERY: i32 = 24;
/// `keyctl` subcommand: encrypt with an asymmetric key.
pub const KEYCTL_PKEY_ENCRYPT: i32 = 25;
/// `keyctl` subcommand: decrypt with an asymmetric key.
pub const KEYCTL_PKEY_DECRYPT: i32 = 26;
/// `keyctl` subcommand: sign with an asymmetric key.
pub const KEYCTL_PKEY_SIGN: i32 = 27;
/// `keyctl` subcommand: verify a signature with an asymmetric key.
pub const KEYCTL_PKEY_VERIFY: i32 = 28;
/// `keyctl` subcommand: restrict which keys a keyring will accept.
pub const KEYCTL_RESTRICT_KEYRING: i32 = 29;

/// The permission mask is four disjoint six-bit fields, one per subject
/// class, each holding the same six rights at a fixed shift: possessor at
/// bit 24, user at bit 16, group at bit 8, other at bit 0. Each class's
/// "all" constant is exactly the union of its six rights.
pub proof fn lemma_permission_bits_layout()
    ensures
        KEY_POS_ALL == KEY_POS_VIEW | KEY_POS_READ | KEY_POS_WRITE | KEY_POS_SEARCH | KEY_POS_LINK
            | KEY_POS_SETATTR,
        KEY_USR_ALL == KEY_USR_VIEW | KEY_USR_READ | KEY_USR_WRITE | KEY_USR_SEARCH | KEY_USR_LINK
            | KEY_USR_SETATTR,
        KEY_GRP_ALL == KEY_GRP_VIEW | KEY_GRP_READ | KEY_GRP_WRITE | KEY_GRP_SEARCH | KEY_GRP_LINK
            | KEY_GRP_SETATTR,
        KEY_OTH_ALL == KEY_OTH_VIEW | KEY_OTH_READ | KEY_OTH_WRITE | KEY_OTH_SEARCH | KEY_OTH_LINK
            | KEY_OTH_SETATTR,
        KEY_POS_ALL & KEY_USR_ALL == 0,
        KEY_POS_ALL & KEY_GRP_ALL == 0,
        KEY_POS_ALL & KEY_OTH_ALL == 0,
        KEY_USR_ALL & KEY_GRP_ALL == 0,
        KEY_USR_ALL & KEY_OTH_ALL == 0,
        KEY_GRP_ALL & KEY_OTH_ALL == 0,
        KEY_POS_ALL == KEY_OTH_ALL << 24,
        KEY_USR_ALL == KEY_OTH_ALL << 16,
        KEY_GRP_ALL == KEY_OTH_ALL << 8,
        KEY_POS_VIEW == KEY_OTH_VIEW << 24,
        KEY_POS_READ == KEY_OTH_READ << 24,
        KEY_POS_WRITE == KEY_OTH_WRITE << 24,
        KEY_POS_SEARCH == KEY_OTH_SEARCH << 24,
        KEY_POS_LINK == KEY_OTH_LINK << 24,
        KEY_POS_SETATTR == KEY_OTH_SETATTR << 24,
        KEY_USR_VIEW == KEY_OTH_VIEW << 16,
        KEY_USR_READ == KEY_OTH_READ << 16,
        KEY_USR_WRITE == KEY_OTH_WRITE << 16,
        KEY_USR_SEARCH == KEY_OTH_SEARCH << 16,
        KEY_USR_LINK == KEY_OTH_LINK << 16,
        KEY_USR_SETATTR == KEY_OTH_SETATTR << 16,
        KEY_GRP_VIEW == KEY_OTH_VIEW << 8,
        KEY_GRP_READ == KEY_OTH_READ << 8,
        KEY_GRP_WRITE == KEY_OTH_WRITE << 8,
        KEY_GRP_SEARCH == KEY_OTH_SEARCH << 8,
        KEY_GRP_LINK == KEY_OTH_LINK << 8,
        KEY_GRP_SETATTR == KEY_OTH_SETATTR << 8,
        KEY_OTH_VIEW == 1u32 << 0,
        KEY_OTH_READ == 1u32 << 1,
        KEY_OTH_WRITE == 1u32 << 2,
        KEY_OTH_SEARCH == 1u32 << 3,
        KEY_OTH_LINK == 1u32 << 4,
        KEY_OTH_SETATTR == 1u32 << 5,
{
    assert(0x3f000000u32 == 0x01000000u32 | 0x02000000u32 | 0x04000000u32 | 0x08000000u32
        | 0x10000000u32 | 0x20000000u32) by (bit_vector);
    assert(0x003f0000u32 == 0x00010000u32 | 0x00020000u32 | 0x00040000u32 | 0x00080000u32
        | 0x00100000u32 | 0x00200000u32) by (bit_vector);
    assert(0x00003f00u32 == 0x00000100u32 | 0x00000200u32 | 0x00000400u32 | 0x00000800u32
        | 0x00001000u32 | 0x00002000u32) by (bit_vector);
    assert(0x0000003fu32 == 0x00000001u32 | 0x00000002u32 | 0x00000004u32 | 0x00000008u32
        | 0x00000010u32 | 0x00000020u32) by (bit_vector);
    assert(0x3f000000u32 & 0x003f0000u32 == 0 && 0x3f000000u32 & 0x00003f00u32 == 0
        && 0x3f000000u32 & 0x0000003fu32 == 0 && 0x003f0000u32 & 0x00003f00u32 == 0
        && 0x003f0000u32 & 0x0000003fu32 == 0 && 0x00003f00u32 & 0x0000003fu32 == 0)
        by (bit_vector);
    assert(0x3f000000u32 == 0x0000003fu32 << 24 && 0x003f0000u32 == 0x0000003fu32 << 16
        && 0x00003f00u32 == 0x0000003fu32 << 8) by (bit_vector);
    assert(0x01000000u32 == 0x00000001u32 << 24 && 0x02000000u32 == 0x00000002u32 << 24
        && 0x04000000u32 == 0x00000004u32 << 24 && 0x08000000u32 == 0x00000008u32 << 24
        && 0x10000000u32 == 0x00000010u32 << 24 && 0x20000000u32 == 0x00000020u32 << 24)
        by (bit_vector);
    assert(0x00010000u32 == 0x00000001u32 << 16 && 0x00020000u32 == 0x00000002u32 << 16
        && 0x00040000u32 == 0x00000004u32 << 16 && 0x00080000u32 == 0x00000008u32 << 16
        && 0x00100000u32 == 0x00000010u32 << 16 && 0x00200000u32 == 0x00000020u32 << 16)
        by (bit_vector);
    assert(0x00000100u32 == 0x00000001u32 << 8 && 0x00000200u32 == 0x00000002u32 << 8
        && 0x00000400u32 == 0x00000004u32 << 8 && 0x00000800u32 == 0x00000008u32 << 8
        && 0x00001000u32 == 0x00000010u32 << 8 && 0x00002000u32 == 0x00000020u32 << 8)
        by (bit_vector);
    assert(0x00000001u32 == 1u32 << 0 && 0x00000002u32 == 1u32 << 1 && 0x00000004u32 == 1u32 << 2
        && 0x00000008u32 == 1u32 << 3 && 0x00000010u32 == 1u32 << 4 && 0x00000020u32 == 1u32 << 5)
        by (bit_vector);
}

/// The special keyring serials and the default-keyring selector codes carry
/// exactly the integer values the kernel documents for them.
pub proof fn lemma_keyring_constant_values()
    ensures
        KEY_SPEC_THREAD_KEYRING == -1,
        KEY_SPEC_PROCESS_KEYRING == -2,
        KEY_SPEC_SESSION_KEYRING == -3,
        KEY_SPEC_USER_KEYRING == -4,
        KEY_SPEC_USER_SESSION_KEYRING == -5,
        KEY_SPEC_GROUP_KEYRING == -6,
        KEY_SPEC_REQKEY_AUTH_KEY == -7,
        KEY_REQKEY_DEFL_NO_CHANGE == -1,
        KEY_REQKEY_DEFL_DEFAULT == 0,
        KEY_REQKEY_DEFL_THREAD_KEYRING == 1,
        KEY_REQKEY_DEFL_PROCESS_KEYRING == 2,
        KEY_REQKEY_DEFL_SESSION_KEYRING == 3,
        KEY_REQKEY_DEFL_USER_KEYRING == 4,
        KEY_REQKEY_DEFL_USER_SESSION_KEYRING == 5,
        KEY_REQKEY_DEFL_GROUP_KEYRING == 6,
{
}

} // verus!

