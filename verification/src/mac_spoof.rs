//! Hardware-address validation and display for the MAC-spoofing screen.
//!
//! Before a hardware address is written to an adapter's registry entry it
//! must look like `XX-XX-XX-XX-XX-XX`, where each `X` is a hexadecimal
//! digit in either case. Only the first seventeen characters are examined;
//! the registry write itself happens outside the library.

use crate::adapters_info::{address_chars, dashed_hex_chars};
use vstd::prelude::*;

verus! {

/// Why a candidate hardware address was rejected.
#[derive(Debug, Clone, Copy, PartialEq, Eq, Structural)]
pub enum HwAddressError {
    /// The text ended where a hexadecimal digit was expected.
    TooShort,
    /// The text ended where a `-` separator was expected.
    MissingSeparator,
    /// A character at a digit position is not a hexadecimal digit.
    InvalidChar(char),
    /// A character at a separator position is not `-`.
    ExpectedSeparator(char),
}

impl HwAddressError {
    /// A short description of the rejection, mirroring the messages the
    /// validation reports to the user.
    pub fn message(&self) -> (r: &'static str)
        ensures
            r@ == self.spec_message(),
    {
        match self {
            HwAddressError::TooShort => "address too short",
            HwAddressError::MissingSeparator => "missing `-`",
            HwAddressError::InvalidChar(_) => "invalid char",
            HwAddressError::ExpectedSeparator(_) => "expected `-`",
        }
    }

    /// The text `message` returns for each rejection.
    pub open spec fn spec_message(self) -> Seq<char> {
        match self {
            HwAddressError::TooShort => "address too short"@,
            HwAddressError::MissingSeparator => "missing `-`"@,
            HwAddressError::InvalidChar(_) => "invalid char"@,
            HwAddressError::ExpectedSeparator(_) => "expected `-`"@,
        }
    }
}

/// Whether `c` is a hexadecimal digit, upper or lower case.
pub open spec fn spec_is_hex_char(c: char) -> bool {
    (('0' as u32) <= (c as u32) && (c as u32) <= ('9' as u32)) || (('a' as u32) <= (c as u32) && (c
        as u32) <= ('f' as u32)) || (('A' as u32) <= (c as u32) && (c as u32) <= ('F' as u32))
}

/// Whether position `i` of a candidate address holds what the
/// `XX-XX-XX-XX-XX-XX` shape demands there: a `-` at every third
/// position, a hexadecimal digit elsewhere.
pub open spec fn spec_hw_position_ok(s: Seq<char>, i: int) -> bool
    recommends
        0 <= i < s.len(),
{
    if i % 3 == 2 {
        s[i] == '-'
    } else {
        spec_is_hex_char(s[i])
    }
}

/// Whether position `i` of a candidate address exists and holds what the
/// shape demands there.
pub open spec fn spec_hw_position_filled(s: Seq<char>, i: int) -> bool {
    i < s.len() && spec_hw_position_ok(s, i)
}

/// The first position in `[i, 17)` that the candidate fails to fill, or
/// 17 if none.
pub open spec fn spec_first_hw_violation(s: Seq<char>, i: int) -> int
    recommends
        0 <= i <= 17,
    decreases 17 - i,
{
    if i >= 17 {
        17
    } else if !spec_hw_position_filled(s, i) {
        i
    } else {
        spec_first_hw_violation(s, i + 1)
    }
}

/// What `validate_hardware_address` decides for a candidate: accepted
/// when its first seventeen characters exist and match the shape, else
/// rejected at the first offending position with the matching reason.
pub open spec fn spec_validate_hardware_address(s: Seq<char>) -> Result<(), HwAddressError> {
    let v = spec_first_hw_violation(s, 0);
    if v == 17 {
        Ok(())
    } else if v >= s.len() {
        if v % 3 == 2 {
            Err(HwAddressError::MissingSeparator)
        } else {
            Err(HwAddressError::TooShort)
        }
    } else if v % 3 == 2 {
        Err(HwAddressError::ExpectedSeparator(s[v]))
    } else {
        Err(HwAddressError::InvalidChar(s[v]))
    }
}

proof fn lemma_first_hw_violation(s: Seq<char>, i: int)
    requires
        0 <= i <= 17,
    ensures
        i <= spec_first_hw_violation(s, i) <= 17,
        forall|j: int| #![trigger spec_hw_position_filled(s, j)]
            i <= j < spec_first_hw_violation(s, i) ==> spec_hw_position_filled(s, j),
        spec_first_hw_violation(s, i) < 17 ==> !spec_hw_position_filled(
            s,
            spec_first_hw_violation(s, i),
        ),
    decreases 17 - i,
{
    if i >= 17 {
        assert(spec_first_hw_violation(s, i) == 17);
    } else if !spec_hw_position_filled(s, i) {
        assert(spec_first_hw_violation(s, i) == i);
    } else {
        lemma_first_hw_violation(s, i + 1);
        assert(spec_first_hw_violation(s, i) == spec_first_hw_violation(s, i + 1));
        assert forall|j: int|
            i <= j < spec_first_hw_violation(s, i) implies spec_hw_position_filled(s, j) by {
            if i + 1 <= j {
                assert(spec_hw_position_filled(s, j));
            }
        }
    }
}

/// A candidate is accepted exactly when each of its first seventeen
/// positions exists and matches the `XX-XX-XX-XX-XX-XX` shape.
/// Characters past the seventeenth are never examined.
pub proof fn lemma_validate_accepts_exactly_the_well_shaped(s: Seq<char>)
    ensures
        spec_validate_hardware_address(s) is Ok <==> (forall|i: int|
            0 <= i < 17 ==> spec_hw_position_filled(s, i)),
{
    lemma_first_hw_violation(s, 0);
    let v = spec_first_hw_violation(s, 0);
    if v == 17 {
        assert forall|i: int| 0 <= i < 17 implies spec_hw_position_filled(s, i) by {
            assert(spec_hw_position_filled(s, i));
        }
    } else {
        if forall|i: int| 0 <= i < 17 ==> spec_hw_position_filled(s, i) {
            assert(spec_hw_position_filled(s, v));
            assert(false);
        }
    }
}

/// Whether `c` is a hexadecimal digit, upper or lower case.
pub fn is_hex_char(c: char) -> (r: bool)
    ensures
        r == spec_is_hex_char(c),
{
    let v = c as u32;
    (('0' as u32) <= v && v <= ('9' as u32)) || (('a' as u32) <= v && v <= ('f' as u32)) || (('A'
        as u32) <= v && v <= ('F' as u32))
}

/// Check that a candidate hardware address starts with seventeen
/// characters of the shape `XX-XX-XX-XX-XX-XX`, reporting the first
/// offending position's reason otherwise.
pub fn validate_hardware_address(hardware_address: &str) -> (r: Result<(), HwAddressError>)
    ensures
        r == spec_validate_hardware_address(hardware_address@),
{
    let ghost s = hardware_address@;
    let len = hardware_address.unicode_len();
    let mut i: usize = 0;
    while i < 17
        invariant
            s == hardware_address@,
            len == s.len(),
            0 <= i <= 17,
            forall|j: int| #![trigger spec_hw_position_filled(s, j)]
                0 <= j < i ==> spec_hw_position_filled(s, j),
        decreases 17 - i,
    {
        proof {
            lemma_first_hw_violation(s, 0);
        }
        if i >= len {
            proof {
                assert(!spec_hw_position_filled(s, i as int));
                assert(spec_first_hw_violation(s, 0) == i as int) by {
                    let v = spec_first_hw_violation(s, 0);
                    if v < i as int {
                        assert(spec_hw_position_filled(s, v));
                        assert(false);
                    }
                    if v > i as int {
                        assert(spec_hw_position_filled(s, i as int));
                        assert(false);
                    }
                }
            }
            if i % 3 == 2 {
                return Err(HwAddressError::MissingSeparator);
            } else {
                return Err(HwAddressError::TooShort);
            }
        }
        let c = hardware_address.get_char(i);
        if i % 3 == 2 {
            if c != '-' {
                proof {
                    assert(!spec_hw_position_filled(s, i as int));
                    assert(spec_first_hw_violation(s, 0) == i as int) by {
                        let v = spec_first_hw_violation(s, 0);
                        if v < i as int {
                            assert(spec_hw_position_filled(s, v));
                            assert(false);
                        }
                        if v > i as int {
                            assert(spec_hw_position_filled(s, i as int));
                            assert(false);
                        }
                    }
                }
                return Err(HwAddressError::ExpectedSeparator(c));
            }
        } else {
            if !is_hex_char(c) {
                proof {
                    assert(!spec_hw_position_filled(s, i as int));
                    assert(spec_first_hw_violation(s, 0) == i as int) by {
                        let v = spec_first_hw_violation(s, 0);
                        if v < i as int {
                            assert(spec_hw_position_filled(s, v));
                            assert(false);
                        }
                        if v > i as int {
                            assert(spec_hw_position_filled(s, i as int));
                            assert(false);
                        }
                    }
                }
                return Err(HwAddressError::InvalidChar(c));
            }
        }
        proof {
            assert(spec_hw_position_filled(s, i as int));
        }
        i = i + 1;
    }
    proof {
        lemma_first_hw_violation(s, 0);
        let v = spec_first_hw_violation(s, 0);
        if v < 17 {
            assert(spec_hw_position_filled(s, v));
            assert(false);
        }
    }
    Ok(())
}

/// What `format_mac_address` appends: six- and eight-byte addresses
/// render as dash-joined uppercase hexadecimal groups; any other length
/// falls back to the general address form, which carries a trailing
/// newline.
pub open spec fn mac_address_chars(data: Seq<u8>) -> Seq<char> {
    if data.len() == 6 || data.len() == 8 {
        dashed_hex_chars(data)
    } else {
        address_chars(data)
    }
}

/// Append the display form of a MAC address to `s`.
pub fn format_mac_address(s: &mut String, data: &[u8])
    ensures
        final(s)@ == old(s)@ + mac_address_chars(data@),
{
    let len = data.len();
    if len == 6 || len == 8 {
        crate::adapters_info::push_dashed_hex(s, data);
    } else {
        crate::adapters_info::format_address(s, data);
    }
}

/// The display form of a MAC address as a fresh string.
pub fn format_mac_address_to_string(address: &[u8]) -> (r: String)
    ensures
        r@ == mac_address_chars(address@),
{
    let mut ret = String::new();
    format_mac_address(&mut ret, address);
    proof {
        assert(ret@ =~= mac_address_chars(address@));
    }
    ret
}

} // verus!
