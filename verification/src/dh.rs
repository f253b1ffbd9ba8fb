//! Marshaling of the Diffie-Hellman compute operation.
//!
//! The kernel takes the three key serials through a fixed-layout parameter
//! struct, and the optional key-derivation step through a second one whose
//! trailing reserved words must be zero and are never read. Both are built
//! here as plain values; the unverified shim lays them out in memory.

use vstd::prelude::*;
use vstd::string::StringSliceAdditionalSpecFns;

use crate::constants::KEYCTL_DH_COMPUTE;
use crate::calls::spec_opt_capacity;
use crate::cstr::CZStr;
use crate::cstr::nul_free;
use crate::cstr::terminated;
use crate::error::EINVAL;
use crate::error::KeyError;
use crate::results::safe_len;
use crate::serial::KeyringSerial;

verus! {

/// The kernel's Diffie-Hellman parameter struct: three key serials, in
/// this field order.
pub struct DhComputeParams {
    /// The serial of the private-key key.
    pub private: i32,
    /// The serial of the prime key.
    pub prime: i32,
    /// The serial of the base (generator or public key) key.
    pub base: i32,
}

/// The kernel's key-derivation parameter struct, less its two pointers:
/// the hash name the pointer will address, the other-information length
/// that accompanies the other-information pointer, and the reserved words,
/// which must be zero.
pub struct DhKdfParams {
    /// The hash algorithm name, terminated.
    pub hashname: CZStr,
    /// The byte length of the other-information input.
    pub otherinfo_len: u32,
    /// The reserved trailing words; always zero.
    pub spare: [u32; 8],
}

/// The arguments of a Diffie-Hellman compute call without key derivation;
/// the kernel receives a null key-derivation pointer.
pub struct DhComputeCall {
    /// The `keyctl` subcommand code.
    pub command: i32,
    /// The three key serials.
    pub params: DhComputeParams,
    /// Whether an output buffer is given; absent means a null pointer and
    /// asks for the required size alone.
    pub has_buffer: bool,
    /// The output buffer's capacity; zero when absent.
    pub capacity: usize,
}

/// The byte length an optional byte-string argument marshals to: zero when
/// absent.
pub open spec fn spec_opt_len(opt: Option<&[u8]>) -> int {
    match opt {
        Some(d) => d@.len() as int,
        None => 0,
    }
}

/// Builds a Diffie-Hellman compute call: raw shared-secret computation
/// from a private key, a prime and a base.
pub fn keyctl_dh_compute(
    private: KeyringSerial,
    prime: KeyringSerial,
    base: KeyringSerial,
    buffer_capacity: Option<usize>,
) -> (c: DhComputeCall)
    ensures
        c.command == KEYCTL_DH_COMPUTE,
        c.params.private == private.spec_get(),
        c.params.prime == prime.spec_get(),
        c.params.base == base.spec_get(),
        c.has_buffer == buffer_capacity is Some,
        c.capacity == spec_opt_capacity(buffer_capacity),
{
    DhComputeCall {
        command: KEYCTL_DH_COMPUTE,
        params: DhComputeParams {
            private: private.get(),
            prime: prime.get(),
            base: base.get(),
        },
        has_buffer: buffer_capacity.is_some(),
        capacity: match buffer_capacity {
            Some(n) => n,
            None => 0,
        },
    }
}

/// The arguments of a Diffie-Hellman compute call with key derivation.
pub struct DhComputeKdfCall {
    /// The `keyctl` subcommand code.
    pub command: i32,
    /// The three key serials.
    pub params: DhComputeParams,
    /// The key-derivation parameters.
    pub kdf: DhKdfParams,
    /// Whether other-information input is given; absent means a null
    /// pointer.
    pub has_otherinfo: bool,
    /// Whether an output buffer is given; absent means a null pointer and
    /// asks for the required size alone.
    pub has_buffer: bool,
    /// The output buffer's capacity; zero when absent.
    pub capacity: usize,
}

/// Builds a Diffie-Hellman compute call that pipes the shared secret
/// through a key-derivation function. Fails, before any syscall, exactly
/// when the hash name holds an embedded NUL or the other-information input
/// is longer than the kernel's 32-bit length field allows.
pub fn keyctl_dh_compute_kdf(
    private: KeyringSerial,
    prime: KeyringSerial,
    base: KeyringSerial,
    hashname: &str,
    otherinfo: Option<&[u8]>,
    buffer_capacity: Option<usize>,
) -> (r: Result<DhComputeKdfCall, KeyError>)
    ensures
        nul_free(hashname.spec_bytes()) && spec_opt_len(otherinfo) <= u32::MAX ==> (r matches Ok(c)
            && c.command == KEYCTL_DH_COMPUTE && c.params.private == private.spec_get()
            && c.params.prime == prime.spec_get() && c.params.base == base.spec_get()
            && c.kdf.hashname@ == terminated(hashname) && c.kdf.otherinfo_len == spec_opt_len(
            otherinfo,
        ) && (forall|i: int| 0 <= i < 8 ==> c.kdf.spare@[i] == 0) && c.has_otherinfo == otherinfo
             is Some && c.has_buffer == buffer_capacity is Some && c.capacity == spec_opt_capacity(
            buffer_capacity,
        )),
        !(nul_free(hashname.spec_bytes()) && spec_opt_len(otherinfo) <= u32::MAX) ==> r == Err::<
            DhComputeKdfCall,
            KeyError,
        >(KeyError::Errno(EINVAL)),
{
    let hashname = CZStr::new(hashname)?;
    let otherinfo_len: u32 = match otherinfo {
        Some(d) => safe_len(d.len())?,
        None => 0,
    };
    Ok(
        DhComputeKdfCall {
            command: KEYCTL_DH_COMPUTE,
            params: DhComputeParams {
                private: private.get(),
                prime: prime.get(),
                base: base.get(),
            },
            kdf: DhKdfParams { hashname, otherinfo_len, spare: [0, 0, 0, 0, 0, 0, 0, 0] },
            has_otherinfo: otherinfo.is_some(),
            has_buffer: buffer_capacity.is_some(),
            capacity: match buffer_capacity {
                Some(n) => n,
                None => 0,
            },
        },
    )
}

} // verus!
