//! Platform status codes.
//!
//! COM calls report their outcome as an `HRESULT`: a 32-bit signed status
//! code whose sign bit distinguishes failure (negative) from success
//! (non-negative). Two success codes matter to the enumeration protocol:
//! `S_OK` (zero) and `S_FALSE` (one), the latter used by enumerators to
//! signal exhaustion.

use crate::hex::{hex_u32_chars, push_hex_u32};
use vstd::prelude::*;

verus! {

/// The `HRESULT` value reporting plain success.
pub const S_OK: i32 = 0;

/// The `HRESULT` success value that an enumerator uses to signal that no
/// items remain.
pub const S_FALSE: i32 = 1;

/// An opaque platform status code carried out of a failing native call.
#[derive(Debug, Clone, Copy, PartialEq, Eq, Structural)]
pub struct HResult {
    pub code: i32,
}

/// Whether a raw status code denotes failure: the platform convention is
/// that exactly the negative codes are failures.
pub open spec fn spec_failed(code: i32) -> bool {
    code < 0
}

impl HResult {
    /// Wrap a raw status code.
    pub fn from_code(code: i32) -> (r: Self)
        ensures
            r.code == code,
    {
        HResult { code }
    }

    /// The raw status code.
    pub fn code(&self) -> (r: i32)
        ensures
            r == self.code,
    {
        self.code
    }

    /// Whether this status code denotes failure.
    pub fn is_failure(&self) -> (r: bool)
        ensures
            r == spec_failed(self.code),
    {
        self.code < 0
    }

    /// The 32-bit pattern of a status code, as the platform prints it.
    pub open spec fn spec_code_bits(c: i32) -> u32 {
        if c >= 0 {
            c as u32
        } else {
            (c + 0x100000000) as u32
        }
    }

    /// The human-readable form of this status code: `HRESULT 0x`
    /// followed by its eight hexadecimal digits.
    pub open spec fn spec_message(self) -> Seq<char> {
        "HRESULT 0x"@ + hex_u32_chars(Self::spec_code_bits(self.code))
    }

    /// Render this status code as `HRESULT 0x` and eight hexadecimal
    /// digits.
    pub fn message(&self) -> (r: String)
        ensures
            r@ == self.spec_message(),
    {
        let bits: u32 = if self.code >= 0 {
            self.code as u32
        } else {
            ((self.code as i64) + 0x100000000i64) as u32
        };
        let mut s = String::new();
        s.append("HRESULT 0x");
        push_hex_u32(&mut s, bits);
        proof {
            assert(s@ =~= self.spec_message());
        }
        s
    }
}

} // verus!
