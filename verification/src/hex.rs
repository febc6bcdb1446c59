//! Uppercase hexadecimal rendering of bytes and words.
//!
//! Adapter hardware addresses and connection GUIDs are displayed as
//! uppercase hexadecimal digit groups. The spec functions here define that
//! rendering character by character; the executable functions build the
//! same text and are proved to match.

use vstd::prelude::*;

verus! {

/// The uppercase hexadecimal digit character for a value below 16.
pub open spec fn nibble_char(n: u8) -> char
    recommends
        n < 16,
{
    if n == 0 {
        '0'
    } else if n == 1 {
        '1'
    } else if n == 2 {
        '2'
    } else if n == 3 {
        '3'
    } else if n == 4 {
        '4'
    } else if n == 5 {
        '5'
    } else if n == 6 {
        '6'
    } else if n == 7 {
        '7'
    } else if n == 8 {
        '8'
    } else if n == 9 {
        '9'
    } else if n == 10 {
        'A'
    } else if n == 11 {
        'B'
    } else if n == 12 {
        'C'
    } else if n == 13 {
        'D'
    } else if n == 14 {
        'E'
    } else {
        'F'
    }
}

/// The two uppercase hexadecimal digits of a byte, high digit first.
pub open spec fn hex_byte_chars(b: u8) -> Seq<char> {
    seq![nibble_char(b / 16), nibble_char(b % 16)]
}

/// The four uppercase hexadecimal digits of a 16-bit word.
pub open spec fn hex_u16_chars(v: u16) -> Seq<char> {
    hex_byte_chars((v / 256) as u8) + hex_byte_chars((v % 256) as u8)
}

/// The eight uppercase hexadecimal digits of a 32-bit word.
pub open spec fn hex_u32_chars(v: u32) -> Seq<char> {
    hex_byte_chars((v / 0x1000000) as u8) + hex_byte_chars(((v / 0x10000) % 256) as u8)
        + hex_byte_chars(((v / 0x100) % 256) as u8) + hex_byte_chars((v % 256) as u8)
}

/// The single-character string slice holding the uppercase hexadecimal
/// digit of a value below 16.
pub fn nibble_str(n: u8) -> (r: &'static str)
    requires
        n < 16,
    ensures
        r@ == seq![nibble_char(n)],
{
    if n == 0 {
        proof {
            reveal_strlit("0");
            assert("0"@ =~= seq![nibble_char(n)]);
        }
        "0"
    } else if n == 1 {
        proof {
            reveal_strlit("1");
            assert("1"@ =~= seq![nibble_char(n)]);
        }
        "1"
    } else if n == 2 {
        proof {
            reveal_strlit("2");
            assert("2"@ =~= seq![nibble_char(n)]);
        }
        "2"
    } else if n == 3 {
        proof {
            reveal_strlit("3");
            assert("3"@ =~= seq![nibble_char(n)]);
        }
        "3"
    } else if n == 4 {
        proof {
            reveal_strlit("4");
            assert("4"@ =~= seq![nibble_char(n)]);
        }
        "4"
    } else if n == 5 {
        proof {
            reveal_strlit("5");
            assert("5"@ =~= seq![nibble_char(n)]);
        }
        "5"
    } else if n == 6 {
        proof {
            reveal_strlit("6");
            assert("6"@ =~= seq![nibble_char(n)]);
        }
        "6"
    } else if n == 7 {
        proof {
            reveal_strlit("7");
            assert("7"@ =~= seq![nibble_char(n)]);
        }
        "7"
    } else if n == 8 {
        proof {
            reveal_strlit("8");
            assert("8"@ =~= seq![nibble_char(n)]);
        }
        "8"
    } else if n == 9 {
        proof {
            reveal_strlit("9");
            assert("9"@ =~= seq![nibble_char(n)]);
        }
        "9"
    } else if n == 10 {
        proof {
            reveal_strlit("A");
            assert("A"@ =~= seq![nibble_char(n)]);
        }
        "A"
    } else if n == 11 {
        proof {
            reveal_strlit("B");
            assert("B"@ =~= seq![nibble_char(n)]);
        }
        "B"
    } else if n == 12 {
        proof {
            reveal_strlit("C");
            assert("C"@ =~= seq![nibble_char(n)]);
        }
        "C"
    } else if n == 13 {
        proof {
            reveal_strlit("D");
            assert("D"@ =~= seq![nibble_char(n)]);
        }
        "D"
    } else if n == 14 {
        proof {
            reveal_strlit("E");
            assert("E"@ =~= seq![nibble_char(n)]);
        }
        "E"
    } else {
        proof {
            reveal_strlit("F");
            assert("F"@ =~= seq![nibble_char(n)]);
        }
        "F"
    }
}

/// Append the two uppercase hexadecimal digits of `b` to `s`.
pub fn push_hex_byte(s: &mut String, b: u8)
    ensures
        final(s)@ == old(s)@ + hex_byte_chars(b),
{
    s.append(nibble_str(b / 16));
    s.append(nibble_str(b % 16));
    proof {
        assert(s@ =~= old(s)@ + hex_byte_chars(b));
    }
}

/// Append the four uppercase hexadecimal digits of `v` to `s`.
pub fn push_hex_u16(s: &mut String, v: u16)
    ensures
        final(s)@ == old(s)@ + hex_u16_chars(v),
{
    push_hex_byte(s, (v / 256) as u8);
    push_hex_byte(s, (v % 256) as u8);
    proof {
        assert(s@ =~= old(s)@ + hex_u16_chars(v));
    }
}

/// Append the eight uppercase hexadecimal digits of `v` to `s`.
pub fn push_hex_u32(s: &mut String, v: u32)
    ensures
        final(s)@ == old(s)@ + hex_u32_chars(v),
{
    assert(v / 0x1000000 < 256);
    push_hex_byte(s, (v / 0x1000000) as u8);
    push_hex_byte(s, ((v / 0x10000) % 256) as u8);
    push_hex_byte(s, ((v / 0x100) % 256) as u8);
    push_hex_byte(s, (v % 256) as u8);
    proof {
        assert(s@ =~= old(s)@ + hex_u32_chars(v));
    }
}

} // verus!
