//! Facts about text that the models' rules are stated over.

use vstd::prelude::*;
use vstd::utf8::*;
use vstd::string::*;

verus! {

/// The number of bytes of the UTF-8 encoding of `s`, which is what
/// `str::len` and `String::len` give.
pub open spec fn byte_len(s: Seq<char>) -> nat {
    encode_utf8(s).len()
}

/// Whether `c` is an ASCII letter.
pub open spec fn is_ascii_letter(c: char) -> bool {
    ('a' <= c && c <= 'z') || ('A' <= c && c <= 'Z')
}

/// Whether `c` is a lowercase ASCII letter.
pub open spec fn is_ascii_lower(c: char) -> bool {
    'a' <= c && c <= 'z'
}

/// Whether `c` is an ASCII decimal digit.
pub open spec fn is_ascii_digit(c: char) -> bool {
    '0' <= c && c <= '9'
}

/// The number of bytes of the text held by `s`.
pub fn text_byte_len(s: &String) -> (n: usize)
    ensures
        n as nat == byte_len(s@),
{
    let bytes = s.as_str().as_bytes();
    proof {
        broadcast use vstd::slice::group_slice_axioms;
    }
    bytes.len()
}

} // verus!
