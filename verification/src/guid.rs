//! The 128-bit connection identifier.
//!
//! The platform identifies a network connection by a GUID: a 32-bit word,
//! two 16-bit words, and eight bytes. Its canonical text form is the
//! hyphenated, uppercase, 36-character 8-4-4-4-12 hexadecimal grouping;
//! `guid_chars` defines that form character by character.

use crate::hex::{hex_byte_chars, hex_u16_chars, hex_u32_chars};
use vstd::prelude::*;

verus! {

/// A 128-bit globally unique identifier, held as plain words and bytes in
/// the order the platform declares them.
#[derive(Debug, Clone, Copy, PartialEq, Eq)]
pub struct Guid {
    pub data1: u32,
    pub data2: u16,
    pub data3: u16,
    pub data4: [u8; 8],
}

/// The canonical hyphenated, uppercase, 36-character rendering of a GUID:
/// 8-4-4-4-12 hexadecimal digit groups. The first two bytes of `data4`
/// form the fourth group; the remaining six form the last. Kept opaque:
/// proofs that compare renderings reveal it where the digits matter.
#[verifier::opaque]
pub open spec fn guid_chars(g: Guid) -> Seq<char> {
    hex_u32_chars(g.data1) + seq!['-'] + hex_u16_chars(g.data2) + seq!['-'] + hex_u16_chars(
        g.data3,
    ) + seq!['-'] + hex_byte_chars(g.data4@[0]) + hex_byte_chars(g.data4@[1]) + seq!['-']
        + hex_byte_chars(g.data4@[2]) + hex_byte_chars(g.data4@[3]) + hex_byte_chars(g.data4@[4])
        + hex_byte_chars(g.data4@[5]) + hex_byte_chars(g.data4@[6]) + hex_byte_chars(g.data4@[7])
}

/// The canonical rendering always spans exactly 36 characters.
pub proof fn lemma_guid_chars_len(g: Guid)
    ensures
        guid_chars(g).len() == 36,
{
    reveal(guid_chars);
}

} // verus!
