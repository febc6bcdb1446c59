//! Display formatting for adapter hardware addresses.
//!
//! The adapter-information screen renders a hardware address as uppercase
//! hexadecimal byte groups joined by `-`, with a newline after the whole
//! address. The querying of the adapters themselves is platform work and
//! stays outside the library; these functions receive the raw bytes.

use crate::hex::hex_byte_chars;
use crate::hex::push_hex_byte;
use vstd::prelude::*;

verus! {

/// The dash-joined uppercase hexadecimal rendering of a byte string:
/// every byte becomes two digits, and consecutive groups are separated by
/// a single `-`. Empty input renders as the empty sequence.
pub open spec fn dashed_hex_chars(data: Seq<u8>) -> Seq<char>
    decreases data.len(),
{
    if data.len() == 0 {
        Seq::empty()
    } else if data.len() == 1 {
        hex_byte_chars(data.first())
    } else {
        dashed_hex_chars(data.drop_last()) + seq!['-'] + hex_byte_chars(data.last())
    }
}

/// What `format_address` appends: the dash-joined groups followed by one
/// newline.
pub open spec fn address_chars(data: Seq<u8>) -> Seq<char> {
    dashed_hex_chars(data) + seq!['\n']
}

/// Append the dash-joined uppercase hexadecimal groups of `data` to `s`,
/// without the trailing newline.
pub fn push_dashed_hex(s: &mut String, data: &[u8])
    ensures
        final(s)@ == old(s)@ + dashed_hex_chars(data@),
{
    let len = data.len();
    let mut i: usize = 0;
    while i < len
        invariant
            len == data@.len(),
            i <= len,
            if i == len {
                s@ == old(s)@ + dashed_hex_chars(data@)
            } else {
                s@ == old(s)@ + dashed_hex_chars(data@.subrange(0, i as int)) + (if i > 0 {
                    seq!['-']
                } else {
                    Seq::<char>::empty()
                })
            },
        decreases len - i,
    {
        push_hex_byte(s, data[i]);
        if i != len - 1 {
            s.append("-");
            proof {
                reveal_strlit("-");
                assert("-"@ =~= seq!['-']);
            }
        }
        proof {
            let pre = data@.subrange(0, i as int);
            let post = data@.subrange(0, i + 1 as int);
            assert(post.drop_last() =~= pre);
            assert(post.last() == data@[i as int]);
            if i + 1 == len {
                assert(post =~= data@);
                if i == 0 {
                    assert(dashed_hex_chars(data@) == hex_byte_chars(data@.first()));
                    assert(s@ =~= old(s)@ + dashed_hex_chars(data@));
                } else {
                    assert(dashed_hex_chars(data@) == dashed_hex_chars(pre) + seq!['-']
                        + hex_byte_chars(data@.last()));
                    assert(s@ =~= old(s)@ + dashed_hex_chars(data@));
                }
            } else {
                if i == 0 {
                    assert(dashed_hex_chars(post) == hex_byte_chars(data@.first()));
                    assert(s@ =~= old(s)@ + dashed_hex_chars(post) + seq!['-']);
                } else {
                    assert(dashed_hex_chars(post) == dashed_hex_chars(pre) + seq!['-']
                        + hex_byte_chars(post.last()));
                    assert(s@ =~= old(s)@ + dashed_hex_chars(post) + seq!['-']);
                }
            }
        }
        i = i + 1;
    }
    proof {
        if len == 0 {
            assert(s@ =~= old(s)@ + dashed_hex_chars(data@));
        }
    }
}

/// Append the display form of a hardware address to `s`: dash-joined
/// uppercase hexadecimal byte groups and a final newline.
pub fn format_address(s: &mut String, data: &[u8])
    ensures
        final(s)@ == old(s)@ + address_chars(data@),
{
    push_dashed_hex(s, data);
    s.append("\n");
    proof {
        reveal_strlit("\n");
        assert("\n"@ =~= seq!['\n']);
        assert(s@ =~= old(s)@ + address_chars(data@));
    }
}

/// The display form of a hardware address as a fresh string.
pub fn format_address_to_string(address: &[u8]) -> (r: String)
    ensures
        r@ == address_chars(address@),
{
    let mut ret = String::new();
    format_address(&mut ret, address);
    proof {
        assert(ret@ =~= address_chars(address@));
    }
    ret
}

} // verus!
