//! NUL-terminated byte strings for the kernel boundary.
//!
//! Every string the kernel receives — a key type name, a description, a
//! callout string, a hash algorithm name, a restriction specification — is
//! read as C bytes up to the first NUL. A Rust string holding an embedded
//! NUL byte therefore cannot be sent faithfully and is rejected up front,
//! before any syscall is attempted, as an invalid argument.

use vstd::prelude::*;
use vstd::string::StringSliceAdditionalSpecFns;

use crate::error::EINVAL;
use crate::error::KeyError;

verus! {

/// No byte of the sequence is NUL.
pub open spec fn nul_free(bytes: Seq<u8>) -> bool {
    forall|i: int| 0 <= i < bytes.len() ==> bytes[i] != 0
}

/// The terminated image of a string: its bytes with one NUL appended.
pub open spec fn terminated(s: &str) -> Seq<u8> {
    s.spec_bytes().push(0u8)
}

/// Whether an optional string is free of embedded NUL bytes; absence holds
/// trivially.
pub open spec fn opt_nul_free(opt: Option<&str>) -> bool {
    match opt {
        Some(s) => nul_free(s.spec_bytes()),
        None => true,
    }
}

/// Whether an optional terminated string is the image of the optional
/// input: present exactly when the input is, and then its terminated bytes.
pub open spec fn opt_terminated(oz: Option<CZStr>, os: Option<&str>) -> bool {
    match os {
        Some(s) => oz matches Some(z) && z@ == terminated(s),
        None => oz is None,
    }
}

/// A byte string ready for the kernel: the original bytes, NUL-free,
/// followed by exactly one terminating NUL.
///
/// The view is the full terminated image, byte for byte what the kernel
/// reads through the pointer.
pub struct CZStr {
    bytes: Vec<u8>,
}

impl View for CZStr {
    type V = Seq<u8>;

    closed spec fn view(&self) -> Seq<u8> {
        self.bytes@
    }
}

impl CZStr {
    #[verifier::type_invariant]
    spec fn inv(self) -> bool {
        self.bytes@.len() >= 1 && self.bytes@.last() == 0 && nul_free(
            self.bytes@.take(self.bytes@.len() - 1),
        )
    }

    /// Terminates a string for the kernel. Succeeds exactly when the string
    /// holds no embedded NUL byte; the result is the string's bytes with
    /// one NUL appended.
    pub fn new(s: &str) -> (r: Result<CZStr, KeyError>)
        ensures
            nul_free(s.spec_bytes()) ==> (r matches Ok(z) && z@ == s.spec_bytes().push(0u8)),
            !nul_free(s.spec_bytes()) ==> r == Err::<CZStr, KeyError>(KeyError::Errno(EINVAL)),
    {
        let b = s.as_bytes();
        let mut i: usize = 0;
        while i < b.len()
            invariant
                i <= b.len(),
                b@ == s.spec_bytes(),
                forall|j: int| 0 <= j < i ==> b@[j] != 0,
            decreases b.len() - i,
        {
            if b[i] == 0 {
                return Err(KeyError::Errno(EINVAL));
            }
            i += 1;
        }
        let mut bytes = vstd::slice::slice_to_vec(b);
        bytes.push(0);
        Ok(CZStr { bytes })
    }

    /// The terminated bytes, for handing a pointer to the kernel. The slice
    /// ends in NUL and holds no other NUL.
    pub fn as_bytes(&self) -> (r: &[u8])
        ensures
            r@ == self@,
            r@.len() >= 1,
            r@.last() == 0,
            nul_free(r@.take(r@.len() - 1)),
    {
        proof {
            use_type_invariant(self);
        }
        self.bytes.as_slice()
    }
}

/// Terminates an optional string: absence is passed through, to become a
/// null pointer at the boundary, and is never an error.
pub fn opt_cstring(opt: Option<&str>) -> (r: Result<Option<CZStr>, KeyError>)
    ensures
        opt matches Some(s) ==> {
            &&& nul_free(s.spec_bytes()) ==> (r matches Ok(oz) && oz matches Some(z) && z@
                == s.spec_bytes().push(0u8))
            &&& !nul_free(s.spec_bytes()) ==> r == Err::<Option<CZStr>, KeyError>(
                KeyError::Errno(EINVAL),
            )
        },
        opt is None ==> (r matches Ok(oz) && oz is None),
{
    match opt {
        Some(s) => {
            match CZStr::new(s) {
                Ok(z) => Ok(Some(z)),
                Err(e) => Err(e),
            }
        },
        None => Ok(None),
    }
}

} // verus!
