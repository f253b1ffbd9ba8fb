//! Marshaling of the key-management operations.
//!
//! Each kernel operation gets one function that builds, from typed inputs,
//! the exact argument values its syscall needs: strings validated and
//! NUL-terminated, absent options mapped to their sentinels, booleans and
//! selectors encoded as the kernel's integers, and the `keyctl` subcommand
//! code fixed. The result is a call-description struct of plain values; an
//! unverified shim then only has to hand those values, and any payload or
//! output buffer, to the raw syscall, and feed the returned word into
//! [`crate::results`].
//!
//! Output buffers are caller-owned and described here only by capacity: a
//! call may carry no buffer at all, which asks the kernel for the required
//! size alone, and a reported size never depends on the buffer given.

use vstd::prelude::*;
use vstd::string::StringSliceAdditionalSpecFns;

use crate::constants::KEYCTL_ASSUME_AUTHORITY;
use crate::constants::KEYCTL_CHOWN;
use crate::constants::KEYCTL_CLEAR;
use crate::constants::KEYCTL_DESCRIBE;
use crate::constants::KEYCTL_GET_KEYRING_ID;
use crate::constants::KEYCTL_GET_PERSISTENT;
use crate::constants::KEYCTL_GET_SECURITY;
use crate::constants::KEYCTL_INSTANTIATE;
use crate::constants::KEYCTL_INVALIDATE;
use crate::constants::KEYCTL_JOIN_SESSION_KEYRING;
use crate::constants::KEYCTL_LINK;
use crate::constants::KEYCTL_NEGATE;
use crate::constants::KEYCTL_READ;
use crate::constants::KEYCTL_REJECT;
use crate::constants::KEYCTL_RESTRICT_KEYRING;
use crate::constants::KEYCTL_REVOKE;
use crate::constants::KEYCTL_SEARCH;
use crate::constants::KEYCTL_SESSION_TO_PARENT;
use crate::constants::KEYCTL_SETPERM;
use crate::constants::KEYCTL_SET_REQKEY_KEYRING;
use crate::constants::KEYCTL_SET_TIMEOUT;
use crate::constants::KEYCTL_UNLINK;
use crate::constants::KEYCTL_UPDATE;
use crate::cstr::CZStr;
use crate::cstr::nul_free;
use crate::cstr::opt_cstring;
use crate::cstr::opt_nul_free;
use crate::cstr::opt_terminated;
use crate::cstr::terminated;
use crate::default_keyring::DefaultKeyring;
use crate::error::KeyError;
use crate::serial::KeyPermissions;
use crate::serial::KeyringSerial;
use crate::serial::TimeoutSeconds;
use crate::serial::opt_key_serial;

verus! {

/// The arguments of an `add_key` syscall.
pub struct AddKeyCall {
    /// The key type name, terminated.
    pub key_type: CZStr,
    /// The key description, terminated.
    pub description: CZStr,
    /// The payload length, passed alongside the payload pointer.
    pub payload_len: usize,
    /// The destination keyring serial.
    pub keyring: i32,
}

/// Builds an `add_key` call: create or update a key from a payload and
/// link it into a keyring. Fails, before any syscall, exactly when the type
/// or description holds an embedded NUL.
pub fn add_key(type_: &str, description: &str, payload: &[u8], keyring: KeyringSerial) -> (r:
    Result<AddKeyCall, KeyError>)
    ensures
        nul_free(type_.spec_bytes()) && nul_free(description.spec_bytes()) ==> (r matches Ok(c)
            && c.key_type@ == terminated(type_) && c.description@ == terminated(description)
            && c.payload_len == payload@.len() && c.keyring == keyring.spec_get()),
        !(nul_free(type_.spec_bytes()) && nul_free(description.spec_bytes())) ==> (r matches Err(e)
            && e matches KeyError::Errno(_)),
{
    let key_type = CZStr::new(type_)?;
    let description = CZStr::new(description)?;
    Ok(AddKeyCall { key_type, description, payload_len: payload.len(), keyring: keyring.get() })
}

/// The arguments of a `request_key` syscall.
pub struct RequestKeyCall {
    /// The key type name, terminated.
    pub key_type: CZStr,
    /// The key description, terminated.
    pub description: CZStr,
    /// The callout string for the upcall, or absent for a null pointer.
    pub callout: Option<CZStr>,
    /// The destination keyring serial, zero when absent.
    pub keyring: i32,
}

/// Builds a `request_key` call: find or construct a key, optionally via the
/// userspace upcall. Fails, before any syscall, exactly when the type, the
/// description or a present callout string holds an embedded NUL.
pub fn request_key(
    type_: &str,
    description: &str,
    callout_info: Option<&str>,
    keyring: Option<KeyringSerial>,
) -> (r: Result<RequestKeyCall, KeyError>)
    ensures
        nul_free(type_.spec_bytes()) && nul_free(description.spec_bytes()) && opt_nul_free(
            callout_info,
        ) ==> (r matches Ok(c) && c.key_type@ == terminated(type_) && c.description@ == terminated(
            description,
        ) && opt_terminated(c.callout, callout_info) && c.keyring == spec_opt_serial(keyring)),
        !(nul_free(type_.spec_bytes()) && nul_free(description.spec_bytes()) && opt_nul_free(
            callout_info,
        )) ==> (r matches Err(e) && e matches KeyError::Errno(_)),
{
    let key_type = CZStr::new(type_)?;
    let description = CZStr::new(description)?;
    let callout = opt_cstring(callout_info)?;
    Ok(RequestKeyCall { key_type, description, callout, keyring: opt_key_serial(keyring) })
}

/// The serial an optional serial marshals to: zero when absent.
pub open spec fn spec_opt_serial(opt: Option<KeyringSerial>) -> i32 {
    match opt {
        Some(id) => id.spec_get(),
        None => 0,
    }
}

/// The arguments of a get-keyring-id `keyctl` call.
pub struct GetKeyringIdCall {
    /// The `keyctl` subcommand code.
    pub command: i32,
    /// The serial to resolve, usually a special keyring serial.
    pub id: i32,
    /// One to create the keyring if it does not yet exist, else zero.
    pub create: i32,
}

/// Builds a get-keyring-id call: resolve a (special) serial to the real
/// keyring behind it.
pub fn keyctl_get_keyring_id(id: KeyringSerial, create: bool) -> (c: GetKeyringIdCall)
    ensures
        c.command == KEYCTL_GET_KEYRING_ID,
        c.id == id.spec_get(),
        c.create == (if create {
            1int
        } else {
            0int
        }),
{
    GetKeyringIdCall {
        command: KEYCTL_GET_KEYRING_ID,
        id: id.get(),
        create: if create {
            1
        } else {
            0
        },
    }
}

/// The arguments of a join-session-keyring `keyctl` call.
pub struct JoinSessionKeyringCall {
    /// The `keyctl` subcommand code.
    pub command: i32,
    /// The keyring name, or absent for a null pointer (an anonymous
    /// session keyring).
    pub name: Option<CZStr>,
}

/// Builds a join-session-keyring call. Fails, before any syscall, exactly
/// when a present name holds an embedded NUL.
pub fn keyctl_join_session_keyring(name: Option<&str>) -> (r: Result<
    JoinSessionKeyringCall,
    KeyError,
>)
    ensures
        opt_nul_free(name) ==> (r matches Ok(c) && c.command == KEYCTL_JOIN_SESSION_KEYRING
            && opt_terminated(c.name, name)),
        !opt_nul_free(name) ==> (r matches Err(e) && e matches KeyError::Errno(_)),
{
    let name = opt_cstring(name)?;
    Ok(JoinSessionKeyringCall { command: KEYCTL_JOIN_SESSION_KEYRING, name })
}

/// The arguments of an update `keyctl` call.
pub struct UpdateCall {
    /// The `keyctl` subcommand code.
    pub command: i32,
    /// The serial of the key to update.
    pub id: i32,
    /// The payload length, passed alongside the payload pointer.
    pub payload_len: usize,
}

/// Builds an update call: replace a key's payload.
pub fn keyctl_update(id: KeyringSerial, payload: &[u8]) -> (c: UpdateCall)
    ensures
        c.command == KEYCTL_UPDATE,
        c.id == id.spec_get(),
        c.payload_len == payload@.len(),
{
    UpdateCall { command: KEYCTL_UPDATE, id: id.get(), payload_len: payload.len() }
}

/// The arguments of a `keyctl` call that takes one key serial and nothing
/// else: revoke, clear, invalidate.
pub struct KeyIdCall {
    /// The `keyctl` subcommand code.
    pub command: i32,
    /// The serial of the key or keyring operated on.
    pub id: i32,
}

/// Builds a revoke call: the key stops working at once.
pub fn keyctl_revoke(id: KeyringSerial) -> (c: KeyIdCall)
    ensures
        c.command == KEYCTL_REVOKE,
        c.id == id.spec_get(),
{
    KeyIdCall { command: KEYCTL_REVOKE, id: id.get() }
}

/// Builds a clear call: unlink everything from a keyring.
pub fn keyctl_clear(id: KeyringSerial) -> (c: KeyIdCall)
    ensures
        c.command == KEYCTL_CLEAR,
        c.id == id.spec_get(),
{
    KeyIdCall { command: KEYCTL_CLEAR, id: id.get() }
}

/// Builds an invalidate call: the key vanishes from all searches.
pub fn keyctl_invalidate(id: KeyringSerial) -> (c: KeyIdCall)
    ensures
        c.command == KEYCTL_INVALIDATE,
        c.id == id.spec_get(),
{
    KeyIdCall { command: KEYCTL_INVALIDATE, id: id.get() }
}

/// The arguments of a chown `keyctl` call.
pub struct ChownCall {
    /// The `keyctl` subcommand code.
    pub command: i32,
    /// The serial of the key to re-own.
    pub id: i32,
    /// The new owning user, or all-ones to leave the owner unchanged.
    pub uid: u32,
    /// The new owning group, or all-ones to leave the group unchanged.
    pub gid: u32,
}

/// Builds a chown call: change a key's owner, its group, or both; an
/// absent half maps to the kernel's no-change sentinel of all-ones.
pub fn keyctl_chown(id: KeyringSerial, uid: Option<u32>, gid: Option<u32>) -> (c: ChownCall)
    ensures
        c.command == KEYCTL_CHOWN,
        c.id == id.spec_get(),
        c.uid == (match uid {
            Some(u) => u,
            None => u32::MAX,
        }),
        c.gid == (match gid {
            Some(g) => g,
            None => u32::MAX,
        }),
{
    ChownCall {
        command: KEYCTL_CHOWN,
        id: id.get(),
        uid: match uid {
            Some(u) => u,
            None => u32::MAX,
        },
        gid: match gid {
            Some(g) => g,
            None => u32::MAX,
        },
    }
}

/// The arguments of a setperm `keyctl` call.
pub struct SetPermCall {
    /// The `keyctl` subcommand code.
    pub command: i32,
    /// The serial of the key.
    pub id: i32,
    /// The new permission mask.
    pub perm: u32,
}

/// Builds a setperm call: replace a key's permission mask.
pub fn keyctl_setperm(id: KeyringSerial, perm: KeyPermissions) -> (c: SetPermCall)
    ensures
        c.command == KEYCTL_SETPERM,
        c.id == id.spec_get(),
        c.perm == perm,
{
    SetPermCall { command: KEYCTL_SETPERM, id: id.get(), perm }
}

/// The arguments of a `keyctl` call that fills a caller buffer: describe,
/// read, get-security. The buffer itself stays with the caller; the call
/// records only whether one was given and its capacity. With no buffer the
/// kernel reports the required size and writes nothing.
pub struct BufferCall {
    /// The `keyctl` subcommand code.
    pub command: i32,
    /// The serial of the key read from.
    pub id: i32,
    /// Whether a buffer is given; absent means a null pointer.
    pub has_buffer: bool,
    /// The buffer's capacity; zero when absent.
    pub capacity: usize,
}

/// The capacity an optional buffer marshals to: zero when absent.
pub open spec fn spec_opt_capacity(buffer_capacity: Option<usize>) -> usize {
    match buffer_capacity {
        Some(n) => n,
        None => 0,
    }
}

/// Builds a describe call: fetch a key's type, ownership, permissions and
/// description line.
pub fn keyctl_describe(id: KeyringSerial, buffer_capacity: Option<usize>) -> (c: BufferCall)
    ensures
        c.command == KEYCTL_DESCRIBE,
        c.id == id.spec_get(),
        c.has_buffer == buffer_capacity is Some,
        c.capacity == spec_opt_capacity(buffer_capacity),
{
    BufferCall {
        command: KEYCTL_DESCRIBE,
        id: id.get(),
        has_buffer: buffer_capacity.is_some(),
        capacity: match buffer_capacity {
            Some(n) => n,
            None => 0,
        },
    }
}

/// Builds a read call: fetch a key's payload.
pub fn keyctl_read(id: KeyringSerial, buffer_capacity: Option<usize>) -> (c: BufferCall)
    ensures
        c.command == KEYCTL_READ,
        c.id == id.spec_get(),
        c.has_buffer == buffer_capacity is Some,
        c.capacity == spec_opt_capacity(buffer_capacity),
{
    BufferCall {
        command: KEYCTL_READ,
        id: id.get(),
        has_buffer: buffer_capacity.is_some(),
        capacity: match buffer_capacity {
            Some(n) => n,
            None => 0,
        },
    }
}

/// Builds a get-security call: fetch a key's security context.
pub fn keyctl_get_security(key: KeyringSerial, buffer_capacity: Option<usize>) -> (c: BufferCall)
    ensures
        c.command == KEYCTL_GET_SECURITY,
        c.id == key.spec_get(),
        c.has_buffer == buffer_capacity is Some,
        c.capacity == spec_opt_capacity(buffer_capacity),
{
    BufferCall {
        command: KEYCTL_GET_SECURITY,
        id: key.get(),
        has_buffer: buffer_capacity.is_some(),
        capacity: match buffer_capacity {
            Some(n) => n,
            None => 0,
        },
    }
}

/// The arguments of a link or unlink `keyctl` call.
pub struct LinkCall {
    /// The `keyctl` subcommand code.
    pub command: i32,
    /// The serial of the key.
    pub id: i32,
    /// The serial of the keyring linked into or out of.
    pub ringid: i32,
}

/// Builds a link call: add a key to a keyring.
pub fn keyctl_link(id: KeyringSerial, ringid: KeyringSerial) -> (c: LinkCall)
    ensures
        c.command == KEYCTL_LINK,
        c.id == id.spec_get(),
        c.ringid == ringid.spec_get(),
{
    LinkCall { command: KEYCTL_LINK, id: id.get(), ringid: ringid.get() }
}

/// Builds an unlink call: remove a key from a keyring.
pub fn keyctl_unlink(id: KeyringSerial, ringid: KeyringSerial) -> (c: LinkCall)
    ensures
        c.command == KEYCTL_UNLINK,
        c.id == id.spec_get(),
        c.ringid == ringid.spec_get(),
{
    LinkCall { command: KEYCTL_UNLINK, id: id.get(), ringid: ringid.get() }
}

/// The arguments of a search `keyctl` call.
pub struct SearchCall {
    /// The `keyctl` subcommand code.
    pub command: i32,
    /// The serial of the keyring searched.
    pub ringid: i32,
    /// The key type name, terminated.
    pub key_type: CZStr,
    /// The key description, terminated.
    pub description: CZStr,
    /// The keyring a found key is linked into, zero when absent.
    pub destringid: i32,
}

/// Builds a search call: find a key by type and description under a
/// keyring, optionally linking the find into another keyring. Fails,
/// before any syscall, exactly when the type or description holds an
/// embedded NUL.
pub fn keyctl_search(
    ringid: KeyringSerial,
    type_: &str,
    description: &str,
    destringid: Option<KeyringSerial>,
) -> (r: Result<SearchCall, KeyError>)
    ensures
        nul_free(type_.spec_bytes()) && nul_free(description.spec_bytes()) ==> (r matches Ok(c)
            && c.command == KEYCTL_SEARCH && c.ringid == ringid.spec_get() && c.key_type@
            == terminated(type_) && c.description@ == terminated(description) && c.destringid
            == spec_opt_serial(destringid)),
        !(nul_free(type_.spec_bytes()) && nul_free(description.spec_bytes())) ==> (r matches Err(e)
            && e matches KeyError::Errno(_)),
{
    let key_type = CZStr::new(type_)?;
    let description = CZStr::new(description)?;
    Ok(
        SearchCall {
            command: KEYCTL_SEARCH,
            ringid: ringid.get(),
            key_type,
            description,
            destringid: opt_key_serial(destringid),
        },
    )
}

/// The arguments of an instantiate `keyctl` call.
pub struct InstantiateCall {
    /// The `keyctl` subcommand code.
    pub command: i32,
    /// The serial of the key under construction.
    pub id: i32,
    /// The payload length, passed alongside the payload pointer.
    pub payload_len: usize,
    /// The keyring the new key is linked into, zero when absent.
    pub ringid: i32,
}

/// Builds an instantiate call: give a key under construction its payload.
pub fn keyctl_instantiate(
    id: KeyringSerial,
    payload: &[u8],
    ringid: Option<KeyringSerial>,
) -> (c: InstantiateCall)
    ensures
        c.command == KEYCTL_INSTANTIATE,
        c.id == id.spec_get(),
        c.payload_len == payload@.len(),
        c.ringid == spec_opt_serial(ringid),
{
    InstantiateCall {
        command: KEYCTL_INSTANTIATE,
        id: id.get(),
        payload_len: payload.len(),
        ringid: opt_key_serial(ringid),
    }
}

/// The arguments of a negate `keyctl` call.
pub struct NegateCall {
    /// The `keyctl` subcommand code.
    pub command: i32,
    /// The serial of the key under construction.
    pub id: i32,
    /// How long the negative result lasts, in seconds.
    pub timeout: u32,
    /// The keyring the negative key is linked into, zero when absent.
    pub ringid: i32,
}

/// Builds a negate call: mark a key under construction as unobtainable for
/// a while.
pub fn keyctl_negate(
    id: KeyringSerial,
    timeout: TimeoutSeconds,
    ringid: Option<KeyringSerial>,
) -> (c: NegateCall)
    ensures
        c.command == KEYCTL_NEGATE,
        c.id == id.spec_get(),
        c.timeout == timeout,
        c.ringid == spec_opt_serial(ringid),
{
    NegateCall {
        command: KEYCTL_NEGATE,
        id: id.get(),
        timeout,
        ringid: opt_key_serial(ringid),
    }
}

/// The arguments of a set-reqkey-keyring `keyctl` call.
pub struct SetReqkeyKeyringCall {
    /// The `keyctl` subcommand code.
    pub command: i32,
    /// The encoded default-keyring selector.
    pub reqkey_defl: i32,
}

/// Builds a set-reqkey-keyring call: choose where implicitly requested
/// keys go; the kernel answers with the previous selector.
pub fn keyctl_set_reqkey_keyring(reqkey_defl: DefaultKeyring) -> (c: SetReqkeyKeyringCall)
    ensures
        c.command == KEYCTL_SET_REQKEY_KEYRING,
        c.reqkey_defl == reqkey_defl.spec_raw(),
{
    SetReqkeyKeyringCall { command: KEYCTL_SET_REQKEY_KEYRING, reqkey_defl: reqkey_defl.as_raw() }
}

/// The arguments of a set-timeout `keyctl` call.
pub struct SetTimeoutCall {
    /// The `keyctl` subcommand code.
    pub command: i32,
    /// The serial of the key.
    pub key: i32,
    /// The new expiry timeout in seconds; zero cancels expiry.
    pub timeout: u32,
}

/// Builds a set-timeout call: set or cancel a key's expiry.
pub fn keyctl_set_timeout(key: KeyringSerial, timeout: TimeoutSeconds) -> (c: SetTimeoutCall)
    ensures
        c.command == KEYCTL_SET_TIMEOUT,
        c.key == key.spec_get(),
        c.timeout == timeout,
{
    SetTimeoutCall { command: KEYCTL_SET_TIMEOUT, key: key.get(), timeout }
}

/// The arguments of an assume-authority `keyctl` call.
pub struct AssumeAuthorityCall {
    /// The `keyctl` subcommand code.
    pub command: i32,
    /// The serial of the authorization key, zero to divest authority.
    pub key: i32,
}

/// Builds an assume-authority call: take up, or with an absent key lay
/// down, the authority to instantiate a key under construction.
pub fn keyctl_assume_authority(key: Option<KeyringSerial>) -> (c: AssumeAuthorityCall)
    ensures
        c.command == KEYCTL_ASSUME_AUTHORITY,
        c.key == spec_opt_serial(key),
{
    AssumeAuthorityCall { command: KEYCTL_ASSUME_AUTHORITY, key: opt_key_serial(key) }
}

/// The arguments of a reject `keyctl` call.
pub struct RejectCall {
    /// The `keyctl` subcommand code.
    pub command: i32,
    /// The serial of the key under construction.
    pub id: i32,
    /// How long the rejection lasts, in seconds.
    pub timeout: u32,
    /// The `errno` code searches will see while the rejection lasts.
    pub error: i32,
    /// The keyring the rejected key is linked into, zero when absent.
    pub ringid: i32,
}

/// Builds a reject call: mark a key under construction as failed with a
/// chosen error.
pub fn keyctl_reject(
    id: KeyringSerial,
    timeout: TimeoutSeconds,
    error: i32,
    ringid: Option<KeyringSerial>,
) -> (c: RejectCall)
    ensures
        c.command == KEYCTL_REJECT,
        c.id == id.spec_get(),
        c.timeout == timeout,
        c.error == error,
        c.ringid == spec_opt_serial(ringid),
{
    RejectCall {
        command: KEYCTL_REJECT,
        id: id.get(),
        timeout,
        error,
        ringid: opt_key_serial(ringid),
    }
}

/// The arguments of a get-persistent `keyctl` call.
pub struct GetPersistentCall {
    /// The `keyctl` subcommand code.
    pub command: i32,
    /// The user whose persistent keyring is fetched; all-ones for the
    /// calling user.
    pub uid: u32,
    /// The serial of the keyring the persistent keyring is linked into.
    pub id: i32,
}

/// Builds a get-persistent call: fetch a user's persistent keyring and
/// link it into a keyring.
pub fn keyctl_get_persistent(uid: u32, id: KeyringSerial) -> (c: GetPersistentCall)
    ensures
        c.command == KEYCTL_GET_PERSISTENT,
        c.uid == uid,
        c.id == id.spec_get(),
{
    GetPersistentCall { command: KEYCTL_GET_PERSISTENT, uid, id: id.get() }
}

/// The arguments of a session-to-parent `keyctl` call, which takes none.
pub struct SessionToParentCall {
    /// The `keyctl` subcommand code.
    pub command: i32,
}

/// Builds a session-to-parent call: hand the session keyring to the
/// parent process.
pub fn keyctl_session_to_parent() -> (c: SessionToParentCall)
    ensures
        c.command == KEYCTL_SESSION_TO_PARENT,
{
    SessionToParentCall { command: KEYCTL_SESSION_TO_PARENT }
}

/// A restriction to place on a keyring: what it will accept links to.
pub enum Restriction<'a> {
    /// Refuse every further link.
    AllLinks,
    /// Let a key type's restriction policy decide, with its parameter
    /// string.
    ByType {
        /// The key type whose policy decides.
        type_: &'a str,
        /// The policy's parameter string.
        restriction: &'a str,
    },
}

/// The arguments of a restrict-keyring `keyctl` call.
pub struct RestrictKeyringCall {
    /// The `keyctl` subcommand code.
    pub command: i32,
    /// The serial of the keyring restricted.
    pub keyring: i32,
    /// The deciding key type, terminated; absent (a null pointer) to
    /// refuse every further link.
    pub key_type: Option<CZStr>,
    /// The policy's parameter string, terminated; absent with the type.
    pub restriction: Option<CZStr>,
}

/// Builds a restrict-keyring call: limit which keys the keyring will
/// accept from now on. Fails, before any syscall, exactly when a by-type
/// restriction's type or parameter string holds an embedded NUL.
pub fn keyctl_restrict_keyring(keyring: KeyringSerial, restriction: Restriction<'_>) -> (r: Result<
    RestrictKeyringCall,
    KeyError,
>)
    ensures
        restriction matches Restriction::AllLinks ==> (r matches Ok(c) && c.command
            == KEYCTL_RESTRICT_KEYRING && c.keyring == keyring.spec_get() && c.key_type is None
            && c.restriction is None),
        restriction matches Restriction::ByType { type_, restriction: rs } ==> {
            &&& nul_free(type_.spec_bytes()) && nul_free(rs.spec_bytes()) ==> (r matches Ok(c)
                && c.command == KEYCTL_RESTRICT_KEYRING && c.keyring == keyring.spec_get()
                && (c.key_type matches Some(z) && z@ == terminated(type_)) && (c.restriction
                 matches Some(z) && z@ == terminated(rs)))
            &&& !(nul_free(type_.spec_bytes()) && nul_free(rs.spec_bytes())) ==> r == Err::<
                RestrictKeyringCall,
                KeyError,
            >(KeyError::Errno(crate::error::EINVAL))
        },
{
    match restriction {
        Restriction::AllLinks => Ok(
            RestrictKeyringCall {
                command: KEYCTL_RESTRICT_KEYRING,
                keyring: keyring.get(),
                key_type: None,
                restriction: None,
            },
        ),
        Restriction::ByType { type_, restriction } => {
            let key_type = CZStr::new(type_)?;
            let restriction = CZStr::new(restriction)?;
            Ok(
                RestrictKeyringCall {
                    command: KEYCTL_RESTRICT_KEYRING,
                    keyring: keyring.get(),
                    key_type: Some(key_type),
                    restriction: Some(restriction),
                },
            )
        },
    }
}

} // verus!
