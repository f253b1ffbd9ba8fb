//! Marshaling of the public-key operations: query, encrypt, decrypt, sign
//! and verify with an asymmetric key.
//!
//! The kernel takes the key serial and the three lengths through a
//! fixed-layout parameter struct, each length held to the 32-bit field it
//! lands in. The query answer arrives in an over-provisioned kernel struct
//! whose reserved trailing words are dropped when it is converted to the
//! public result.

use vstd::prelude::*;
use vstd::string::StringSliceAdditionalSpecFns;

use crate::constants::KEYCTL_PKEY_DECRYPT;
use crate::constants::KEYCTL_PKEY_ENCRYPT;
use crate::constants::KEYCTL_PKEY_QUERY;
use crate::constants::KEYCTL_PKEY_SIGN;
use crate::constants::KEYCTL_PKEY_VERIFY;
use crate::cstr::CZStr;
use crate::cstr::nul_free;
use crate::cstr::terminated;
use crate::error::EINVAL;
use crate::error::KeyError;
use crate::results::safe_len;
use crate::serial::KeyringSerial;

verus! {

/// What an asymmetric key supports: operation flags, key size, and the
/// byte limits of each operation.
#[derive(Debug, Clone, Copy, PartialEq, Eq, Structural)]
pub struct PKeyQuery {
    /// Flags for the supported operations.
    pub supported_ops: u32,
    /// The key size in bits.
    pub key_size: u32,
    /// The largest data input, in bytes.
    pub max_data_size: u16,
    /// The largest signature, in bytes.
    pub max_sig_size: u16,
    /// The largest encryption input, in bytes.
    pub max_enc_size: u16,
    /// The largest decryption input, in bytes.
    pub max_dec_size: u16,
}

/// The kernel's query answer struct: the public fields followed by
/// reserved trailing words, zero-initialized before the call and dropped
/// after it.
pub struct PKeyQueryKernel {
    /// Flags for the supported operations.
    pub supported_ops: u32,
    /// The key size in bits.
    pub key_size: u32,
    /// The largest data input, in bytes.
    pub max_data_size: u16,
    /// The largest signature, in bytes.
    pub max_sig_size: u16,
    /// The largest encryption input, in bytes.
    pub max_enc_size: u16,
    /// The largest decryption input, in bytes.
    pub max_dec_size: u16,
    /// The reserved trailing words.
    pub spare: [u32; 10],
}

impl PKeyQueryKernel {
    /// An all-zero answer struct, ready for the kernel to fill.
    pub fn zeroed() -> (r: PKeyQueryKernel)
        ensures
            r.supported_ops == 0,
            r.key_size == 0,
            r.max_data_size == 0,
            r.max_sig_size == 0,
            r.max_enc_size == 0,
            r.max_dec_size == 0,
            forall|i: int| 0 <= i < 10 ==> r.spare@[i] == 0,
    {
        PKeyQueryKernel {
            supported_ops: 0,
            key_size: 0,
            max_data_size: 0,
            max_sig_size: 0,
            max_enc_size: 0,
            max_dec_size: 0,
            spare: [0, 0, 0, 0, 0, 0, 0, 0, 0, 0],
        }
    }
}

impl From<PKeyQueryKernel> for PKeyQuery {
    /// Drops the reserved words and keeps the public fields.
    fn from(kernel: PKeyQueryKernel) -> (r: PKeyQuery) {
        PKeyQuery {
            supported_ops: kernel.supported_ops,
            key_size: kernel.key_size,
            max_data_size: kernel.max_data_size,
            max_sig_size: kernel.max_sig_size,
            max_enc_size: kernel.max_enc_size,
            max_dec_size: kernel.max_dec_size,
        }
    }
}

impl vstd::std_specs::convert::FromSpecImpl<PKeyQueryKernel> for PKeyQuery {
    open spec fn obeys_from_spec() -> bool {
        true
    }

    open spec fn from_spec(kernel: PKeyQueryKernel) -> PKeyQuery {
        PKeyQuery {
            supported_ops: kernel.supported_ops,
            key_size: kernel.key_size,
            max_data_size: kernel.max_data_size,
            max_sig_size: kernel.max_sig_size,
            max_enc_size: kernel.max_enc_size,
            max_dec_size: kernel.max_dec_size,
        }
    }
}

/// The arguments of a public-key query call.
pub struct PKeyQueryCall {
    /// The `keyctl` subcommand code.
    pub command: i32,
    /// The serial of the asymmetric key.
    pub key: i32,
    /// The operation information string (password, encoding), terminated.
    pub info: CZStr,
}

/// Builds a public-key query call: ask what the key supports. Fails,
/// before any syscall, exactly when the information string holds an
/// embedded NUL.
pub fn keyctl_pkey_query(key: KeyringSerial, info: &str) -> (r: Result<PKeyQueryCall, KeyError>)
    ensures
        nul_free(info.spec_bytes()) ==> (r matches Ok(c) && c.command == KEYCTL_PKEY_QUERY && c.key
            == key.spec_get() && c.info@ == terminated(info)),
        !nul_free(info.spec_bytes()) ==> r == Err::<PKeyQueryCall, KeyError>(
            KeyError::Errno(EINVAL),
        ),
{
    let info = CZStr::new(info)?;
    Ok(PKeyQueryCall { command: KEYCTL_PKEY_QUERY, key: key.get(), info })
}

/// The kernel's public-key operation parameter struct: the key serial and
/// the three 32-bit lengths, in this field order.
pub struct PKeyOpParams {
    /// The serial of the asymmetric key.
    pub key_id: i32,
    /// The byte length of the first input.
    pub in_len: u32,
    /// The capacity of the output buffer; zero for verify.
    pub out_len: u32,
    /// The byte length of the second input (the signature for verify);
    /// zero otherwise.
    pub in2_len: u32,
}

/// The arguments of a public-key encrypt, decrypt, sign or verify call.
pub struct PKeyOpCall {
    /// The `keyctl` subcommand code.
    pub command: i32,
    /// The key serial and the three lengths.
    pub params: PKeyOpParams,
    /// The operation information string (password, encoding), terminated.
    pub info: CZStr,
}

/// Builds an encrypt call: encrypt data to the key's public half. Fails,
/// before any syscall, exactly when the information string holds an
/// embedded NUL, or the data or buffer length passes the kernel's 32-bit
/// length field.
pub fn keyctl_pkey_encrypt(
    key: KeyringSerial,
    info: &str,
    data: &[u8],
    buffer_capacity: usize,
) -> (r: Result<PKeyOpCall, KeyError>)
    ensures
        nul_free(info.spec_bytes()) && data@.len() <= u32::MAX && buffer_capacity <= u32::MAX ==> (
        r matches Ok(c) && c.command == KEYCTL_PKEY_ENCRYPT && c.params.key_id == key.spec_get()
            && c.params.in_len == data@.len() && c.params.out_len == buffer_capacity
            && c.params.in2_len == 0 && c.info@ == terminated(info)),
        !(nul_free(info.spec_bytes()) && data@.len() <= u32::MAX && buffer_capacity <= u32::MAX)
            ==> r == Err::<PKeyOpCall, KeyError>(KeyError::Errno(EINVAL)),
{
    let params = PKeyOpParams {
        key_id: key.get(),
        in_len: safe_len(data.len())?,
        out_len: safe_len(buffer_capacity)?,
        in2_len: 0,
    };
    let info = CZStr::new(info)?;
    Ok(PKeyOpCall { command: KEYCTL_PKEY_ENCRYPT, params, info })
}

/// Builds a decrypt call: decrypt data with the key's private half. Fails
/// on the same inputs as encrypt.
pub fn keyctl_pkey_decrypt(
    key: KeyringSerial,
    info: &str,
    data: &[u8],
    buffer_capacity: usize,
) -> (r: Result<PKeyOpCall, KeyError>)
    ensures
        nul_free(info.spec_bytes()) && data@.len() <= u32::MAX && buffer_capacity <= u32::MAX ==> (
        r matches Ok(c) && c.command == KEYCTL_PKEY_DECRYPT && c.params.key_id == key.spec_get()
            && c.params.in_len == data@.len() && c.params.out_len == buffer_capacity
            && c.params.in2_len == 0 && c.info@ == terminated(info)),
        !(nul_free(info.spec_bytes()) && data@.len() <= u32::MAX && buffer_capacity <= u32::MAX)
            ==> r == Err::<PKeyOpCall, KeyError>(KeyError::Errno(EINVAL)),
{
    let params = PKeyOpParams {
        key_id: key.get(),
        in_len: safe_len(data.len())?,
        out_len: safe_len(buffer_capacity)?,
        in2_len: 0,
    };
    let info = CZStr::new(info)?;
    Ok(PKeyOpCall { command: KEYCTL_PKEY_DECRYPT, params, info })
}

/// Builds a sign call: sign data with the key's private half. Fails on
/// the same inputs as encrypt.
pub fn keyctl_pkey_sign(
    key: KeyringSerial,
    info: &str,
    data: &[u8],
    buffer_capacity: usize,
) -> (r: Result<PKeyOpCall, KeyError>)
    ensures
        nul_free(info.spec_bytes()) && data@.len() <= u32::MAX && buffer_capacity <= u32::MAX ==> (
        r matches Ok(c) && c.command == KEYCTL_PKEY_SIGN && c.params.key_id == key.spec_get()
            && c.params.in_len == data@.len() && c.params.out_len == buffer_capacity
            && c.params.in2_len == 0 && c.info@ == terminated(info)),
        !(nul_free(info.spec_bytes()) && data@.len() <= u32::MAX && buffer_capacity <= u32::MAX)
            ==> r == Err::<PKeyOpCall, KeyError>(KeyError::Errno(EINVAL)),
{
    let params = PKeyOpParams {
        key_id: key.get(),
        in_len: safe_len(data.len())?,
        out_len: safe_len(buffer_capacity)?,
        in2_len: 0,
    };
    let info = CZStr::new(info)?;
    Ok(PKeyOpCall { command: KEYCTL_PKEY_SIGN, params, info })
}

/// Builds a verify call: check a signature over data against the key's
/// public half; no output buffer exists, so the output length is zero.
/// Fails, before any syscall, exactly when the information string holds an
/// embedded NUL, or the data or signature length passes the kernel's
/// 32-bit length field.
pub fn keyctl_pkey_verify(key: KeyringSerial, info: &str, data: &[u8], sig: &[u8]) -> (r: Result<
    PKeyOpCall,
    KeyError,
>)
    ensures
        nul_free(info.spec_bytes()) && data@.len() <= u32::MAX && sig@.len() <= u32::MAX ==> (
        r matches Ok(c) && c.command == KEYCTL_PKEY_VERIFY && c.params.key_id == key.spec_get()
            && c.params.in_len == data@.len() && c.params.out_len == 0 && c.params.in2_len
            == sig@.len() && c.info@ == terminated(info)),
        !(nul_free(info.spec_bytes()) && data@.len() <= u32::MAX && sig@.len() <= u32::MAX) ==> r
            == Err::<PKeyOpCall, KeyError>(KeyError::Errno(EINVAL)),
{
    let params = PKeyOpParams {
        key_id: key.get(),
        in_len: safe_len(data.len())?,
        out_len: 0,
        in2_len: safe_len(sig.len())?,
    };
    let info = CZStr::new(info)?;
    Ok(PKeyOpCall { command: KEYCTL_PKEY_VERIFY, params, info })
}

} // verus!
