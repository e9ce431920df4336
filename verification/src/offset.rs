//! Offsets into a text: UTF-16 code units, as an input method counts them, against UTF-8 bytes,
//! as the rest of the program does.

use crate::utf16::{char_units, units_of};
use vstd::prelude::*;
use vstd::utf8::*;

verus! {

/// Whether `text` can be split into two texts the first of which has `utf16` code units and `k`
/// characters.
pub open spec fn splits_at(text: Seq<char>, k: int, utf16: int) -> bool {
    0 <= k <= text.len() && units_of(text.take(k)).len() == utf16
}

/// The byte offset in `text` that belongs to the code-unit offset `utf16`: that of the same
/// split of the text, the end for offsets past it, and none inside a surrogate pair.
pub open spec fn utf8_offset(text: Seq<char>, utf16: int) -> Option<int> {
    if utf16 >= units_of(text).len() {
        Some(encode_utf8(text).len() as int)
    } else if exists|k: int| splits_at(text, k, utf16) {
        Some(encode_utf8(text.take(choose|k: int| splits_at(text, k, utf16))).len() as int)
    } else {
        None
    }
}

/// Encoding to UTF-8 goes piece by piece.
pub proof fn lemma_utf8_concat(a: Seq<char>, b: Seq<char>)
    ensures
        encode_utf8(a + b) == encode_utf8(a) + encode_utf8(b),
    decreases a.len(),
{
    if a.len() == 0 {
        assert(a + b =~= b);
        assert(encode_utf8(a) + encode_utf8(b) =~= encode_utf8(b));
    } else {
        assert((a + b).drop_first() =~= a.drop_first() + b);
        lemma_utf8_concat(a.drop_first(), b);
        assert(encode_utf8(a + b) =~= encode_utf8(a) + encode_utf8(b));
    }
}

/// Encoding one more character to UTF-8 appends its bytes.
proof fn lemma_utf8_push(text: Seq<char>, c: char)
    ensures
        encode_utf8(text.push(c)) == encode_utf8(text) + encode_scalar(c as u32),
{
    assert(text.push(c) =~= text + seq![c]);
    lemma_utf8_concat(text, seq![c]);
    assert(seq![c].drop_first() =~= Seq::<char>::empty());
    assert(encode_utf8(seq![c]) =~= encode_scalar(c as u32)) by {
        assert(encode_utf8(Seq::<char>::empty()) =~= Seq::<u8>::empty());
    }
}

/// How many bytes and code units one character takes.
proof fn lemma_char_sizes(c: char)
    ensures
        1 <= char_units(c).len() <= encode_scalar(c as u32).len(),
        char_units(c).len() == (if (c as u32) < 0x10000 {
            1int
        } else {
            2
        }),
        encode_scalar(c as u32).len() == (if (c as u32) < 0x80 {
            1int
        } else if (c as u32) < 0x800 {
            2
        } else if (c as u32) < 0x10000 {
            3
        } else {
            4
        }),
{
}

/// A longer prefix has more code units and more bytes, and never more units than bytes.
proof fn lemma_prefix_sizes(text: Seq<char>, i: int, j: int)
    requires
        0 <= i <= j <= text.len(),
    ensures
        units_of(text.take(i)).len() + (j - i) <= units_of(text.take(j)).len(),
        encode_utf8(text.take(i)).len() + (j - i) <= encode_utf8(text.take(j)).len(),
        units_of(text.take(j)).len() <= encode_utf8(text.take(j)).len(),
    decreases j,
{
    if j == 0 {
        assert(text.take(0) =~= Seq::<char>::empty());
    } else {
        let c: char = text[j - 1];
        assert(text.take(j) =~= text.take(j - 1).push(c));
        crate::utf16::lemma_units_push(text.take(j - 1), c);
        lemma_utf8_push(text.take(j - 1), c);
        lemma_char_sizes(c);
        if i == j {
            lemma_prefix_sizes(text, j - 1, j - 1);
        } else {
            lemma_prefix_sizes(text, i, j - 1);
        }
    }
}

/// A code-unit offset belongs to one split at most.
proof fn lemma_split_unique(text: Seq<char>, i: int, j: int, utf16: int)
    requires
        splits_at(text, i, utf16),
        splits_at(text, j, utf16),
    ensures
        i == j,
{
    if i < j {
        lemma_prefix_sizes(text, i, j);
    } else if j < i {
        lemma_prefix_sizes(text, j, i);
    }
}

/// The end of any prefix of the text, counted in code units, is mapped to the end of the same
/// prefix, counted in bytes.
pub proof fn law_offset_of_prefix(text: Seq<char>, k: int)
    requires
        0 <= k <= text.len(),
    ensures
        utf8_offset(text, units_of(text.take(k)).len() as int) == Some(
            encode_utf8(text.take(k)).len() as int,
        ),
{
    let utf16 = units_of(text.take(k)).len() as int;
    assert(splits_at(text, k, utf16));
    let n = text.len() as int;
    assert(text.take(n) =~= text);
    if utf16 >= units_of(text).len() {
        lemma_prefix_sizes(text, k, n);
    } else {
        lemma_split_unique(text, k, choose|j: int| splits_at(text, j, utf16), utf16);
    }
}

/// Offsets past the end clamp to the end.
pub proof fn law_offset_past_end(text: Seq<char>, utf16: int)
    ensures
        utf16 >= units_of(text).len() ==> utf8_offset(text, utf16) == Some(
            encode_utf8(text).len() as int,
        ),
{
}

/// There is no offset between the two halves of a character outside the basic plane.
pub proof fn law_offset_inside_pair(text: Seq<char>, k: int)
    requires
        0 <= k < text.len(),
        text[k] as u32 >= 0x10000,
    ensures
        utf8_offset(text, units_of(text.take(k)).len() as int + 1) is None,
{
    let utf16 = units_of(text.take(k)).len() as int + 1;
    let c: char = text[k];
    assert(text.take(k + 1) =~= text.take(k).push(c));
    crate::utf16::lemma_units_push(text.take(k), c);
    lemma_char_sizes(c);
    lemma_prefix_sizes(text, k + 1, text.len() as int);
    assert(text.take(text.len() as int) =~= text);
    assert forall|j: int| !splits_at(text, j, utf16) by {
        if splits_at(text, j, utf16) {
            if j <= k {
                lemma_prefix_sizes(text, j, k);
            } else {
                lemma_prefix_sizes(text, k + 1, j);
            }
        }
    }
}

/// A mapped offset lies within the text and on the boundary of a character.
pub proof fn law_offset_is_boundary(text: Seq<char>, utf16: int)
    ensures
        utf8_offset(text, utf16) matches Some(o) ==> 0 <= o <= encode_utf8(text).len()
            && is_char_boundary(encode_utf8(text), o),
{
    encode_utf8_valid_utf8(text);
    is_char_boundary_start_end_of_seq(encode_utf8(text));
    if utf16 < units_of(text).len() && exists|k: int| splits_at(text, k, utf16) {
        let k = choose|k: int| splits_at(text, k, utf16);
        let n = text.len() as int;
        assert(text.take(n) =~= text);
        lemma_prefix_sizes(text, k, n);
        lemma_prefix_is_boundary(text, k);
    }
}

/// The end of a prefix is a boundary in the bytes of the text.
proof fn lemma_prefix_is_boundary(text: Seq<char>, k: int)
    requires
        0 <= k <= text.len(),
    ensures
        is_char_boundary(encode_utf8(text), encode_utf8(text.take(k)).len() as int),
    decreases k,
{
    let bytes = encode_utf8(text);
    encode_utf8_valid_utf8(text);
    if k == 0 {
        assert(text.take(0) =~= Seq::<char>::empty());
    } else {
        let rest = text.drop_first();
        lemma_prefix_is_boundary(rest, k - 1);
        encode_utf8_first_scalar(text);
        assert(pop_first_scalar(bytes) =~= encode_utf8(rest));
        assert(text.take(k).drop_first() =~= rest.take(k - 1));
        lemma_prefix_sizes(text, k, text.len() as int);
        assert(text.take(text.len() as int) =~= text);
    }
}

/// Later code-unit offsets are mapped to later byte offsets.
pub proof fn law_offset_is_monotonic(text: Seq<char>, a: int, b: int)
    requires
        0 <= a <= b,
    ensures
        utf8_offset(text, a) matches Some(x) ==> (utf8_offset(text, b) matches Some(y) ==> x <= y),
{
    let n = text.len() as int;
    assert(text.take(n) =~= text);
    if utf8_offset(text, a) is Some && utf8_offset(text, b) is Some && a < units_of(text).len() {
        let i = choose|k: int| splits_at(text, k, a);
        lemma_prefix_sizes(text, i, n);
        if b < units_of(text).len() {
            let j = choose|k: int| splits_at(text, k, b);
            if j < i {
                lemma_prefix_sizes(text, j, i);
            } else {
                lemma_prefix_sizes(text, i, j);
            }
        }
    }
}

/// The number of bytes of a text.
pub fn byte_len(text: &str) -> (len: usize)
    ensures
        len == encode_utf8(text@).len(),
{
    text.as_bytes().len()
}

/// Maps a UTF-16 code-unit offset inside `text` to a UTF-8 byte offset. Positions past the end
/// clamp to the length of the text; a position inside a surrogate pair has no byte offset.
pub fn utf16_offset_to_utf8(text: &str, utf16: usize) -> (offset: Option<usize>)
    ensures
        match offset {
            Some(o) => utf8_offset(text@, utf16 as int) == Some(o as int),
            None => utf8_offset(text@, utf16 as int) is None,
        },
{
    let len: usize = byte_len(text);
    let mut units: usize = 0;
    let mut bytes: usize = 0;
    proof {
        assert(text@.take(0) =~= Seq::<char>::empty());
        assert(text@.take(text@.len() as int) =~= text@);
    }
    for c in it: text.chars()
        invariant
            it.seq() == text@,
            len == encode_utf8(text@).len(),
            text@.take(text@.len() as int) == text@,
            units == units_of(text@.take(it.index() as int)).len(),
            bytes == encode_utf8(text@.take(it.index() as int)).len(),
            units <= utf16,
    {
        let ghost k = it.index() as int;
        proof {
            assert(text@.take(k + 1) =~= text@.take(k).push(c));
            crate::utf16::lemma_units_push(text@.take(k), c);
            lemma_utf8_push(text@.take(k), c);
            lemma_char_sizes(c);
            lemma_prefix_sizes(text@, k + 1, text@.len() as int);
            lemma_prefix_sizes(text@, k + 1, k + 1);
        }
        if units == utf16 {
            proof {
                law_offset_of_prefix(text@, k);
            }
            return Some(bytes);
        }
        let code: u32 = c as u32;
        let taken: usize = if code < 0x10000 {
            1
        } else {
            2
        };
        units = units + taken;
        if units > utf16 {
            proof {
                assert forall|j: int| !splits_at(text@, j, utf16 as int) by {
                    if splits_at(text@, j, utf16 as int) {
                        if j <= k {
                            lemma_prefix_sizes(text@, j, k);
                        } else {
                            lemma_prefix_sizes(text@, k + 1, j);
                        }
                    }
                }
            }
            return None;
        }
        let width: usize = if code < 0x80 {
            1
        } else if code < 0x800 {
            2
        } else if code < 0x10000 {
            3
        } else {
            4
        };
        bytes = bytes + width;
    }
    Some(len)
}

} // verus!
