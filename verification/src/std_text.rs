//! Contracts for the few functions of the standard library that text handling needs.

use vstd::prelude::*;

verus! {

/// `char::from_u32`: a number names a character exactly when it is a Unicode scalar value, that
/// is, at most `0x10FFFF` and no surrogate; the character then has that number.
pub assume_specification[ char::from_u32 ](i: u32) -> (c: Option<char>)
    ensures
        c == (if i < 0xD800 || 0xE000 <= i <= 0x10FFFF {
            Some(i as char)
        } else {
            None
        }),
;

/// `String::push`: appends one character to the end of the string.
pub assume_specification[ String::push ](s: &mut String, c: char)
    ensures
        final(s)@ == old(s)@.push(c),
;

} // verus!
