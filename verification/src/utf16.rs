//! UTF-16 text, the form in which Win32 takes and hands out strings.

use vstd::prelude::*;

verus! {

/// The first half of a surrogate pair.
pub open spec fn is_high_surrogate(unit: u16) -> bool {
    0xD800 <= unit < 0xDC00
}

/// The second half of a surrogate pair.
pub open spec fn is_low_surrogate(unit: u16) -> bool {
    0xDC00 <= unit < 0xE000
}

/// The character that a surrogate pair stands for.
pub open spec fn pair_char(high: u16, low: u16) -> char {
    (0x10000 + (high - 0xD800) * 0x400 + (low - 0xDC00)) as char
}

/// The code units of one character.
pub open spec fn char_units(c: char) -> Seq<u16> {
    if (c as u32) < 0x10000 {
        seq![c as u16]
    } else {
        seq![
            (0xD800 + (c as u32 - 0x10000) / 0x400) as u16,
            (0xDC00 + (c as u32 - 0x10000) % 0x400) as u16,
        ]
    }
}

/// The code units of a text, character by character.
pub open spec fn units_of(text: Seq<char>) -> Seq<u16>
    decreases text.len(),
{
    if text.len() == 0 {
        seq![]
    } else {
        char_units(text[0]) + units_of(text.drop_first())
    }
}

/// A text as Win32 wants it: its code units, then a NUL.
pub open spec fn wide(text: Seq<char>) -> Seq<u16> {
    units_of(text).push(0)
}

/// Whether `units` opens with a complete surrogate pair.
pub open spec fn starts_with_pair(units: Seq<u16>) -> bool {
    units.len() >= 2 && is_high_surrogate(units[0]) && is_low_surrogate(units[1])
}

/// What `units` decodes to: one entry per character, and `None` for each unpaired surrogate.
pub open spec fn decoded(units: Seq<u16>) -> Seq<Option<char>>
    decreases units.len(),
{
    if units.len() == 0 {
        seq![]
    } else if starts_with_pair(units) {
        seq![Some(pair_char(units[0], units[1]))] + decoded(units.skip(2))
    } else if is_high_surrogate(units[0]) || is_low_surrogate(units[0]) {
        seq![None] + decoded(units.skip(1))
    } else {
        seq![Some(units[0] as char)] + decoded(units.skip(1))
    }
}

/// A decoded text with U+FFFD in the place of each unpaired surrogate.
pub open spec fn lossy(items: Seq<Option<char>>) -> Seq<char> {
    items.map_values(
        |item: Option<char>|
            match item {
                Some(c) => c,
                None => '\u{FFFD}',
            },
    )
}

/// Whether a decoded text has no unpaired surrogate.
pub open spec fn well_paired(items: Seq<Option<char>>) -> bool {
    forall|i: int| 0 <= i < items.len() ==> (#[trigger] items[i]) is Some
}

/// The part of `units` in front of the first NUL; all of it where there is none.
pub open spec fn before_nul(units: Seq<u16>) -> Seq<u16>
    decreases units.len(),
{
    if units.len() == 0 || units[0] == 0 {
        seq![]
    } else {
        seq![units[0]] + before_nul(units.skip(1))
    }
}

/// The part of `text` in front of the first NUL character; all of it where there is none.
pub open spec fn text_before_nul(text: Seq<char>) -> Seq<char>
    decreases text.len(),
{
    if text.len() == 0 || text[0] == '\0' {
        seq![]
    } else {
        seq![text[0]] + text_before_nul(text.drop_first())
    }
}

/// Encoding goes piece by piece.
pub proof fn lemma_units_concat(a: Seq<char>, b: Seq<char>)
    ensures
        units_of(a + b) == units_of(a) + units_of(b),
    decreases a.len(),
{
    if a.len() == 0 {
        assert(a + b =~= b);
        assert(units_of(a) + units_of(b) =~= units_of(b));
    } else {
        assert((a + b).drop_first() =~= a.drop_first() + b);
        lemma_units_concat(a.drop_first(), b);
        assert(units_of(a + b) =~= units_of(a) + units_of(b));
    }
}

/// Encoding one more character appends its code units.
pub proof fn lemma_units_push(text: Seq<char>, c: char)
    ensures
        units_of(text.push(c)) == units_of(text) + char_units(c),
{
    assert(text.push(c) =~= text + seq![c]);
    lemma_units_concat(text, seq![c]);
    assert(seq![c].drop_first() =~= Seq::<char>::empty());
    assert(units_of(seq![c]) =~= char_units(c)) by {
        assert(units_of(Seq::<char>::empty()) =~= Seq::<u16>::empty());
    }
}

/// The halves of a character outside the basic plane are a surrogate pair that gives it back.
pub proof fn lemma_pair_of_char(c: char)
    requires
        c as u32 >= 0x10000,
    ensures
        char_units(c).len() == 2,
        is_high_surrogate(char_units(c)[0]),
        is_low_surrogate(char_units(c)[1]),
        pair_char(char_units(c)[0], char_units(c)[1]) == c,
{
    let v: int = c as u32 - 0x10000;
    assert(v == (v / 0x400) * 0x400 + v % 0x400);
    assert(0 <= v / 0x400 < 0x400);
}

/// A character of the basic plane is one code unit that is no surrogate and gives it back.
pub proof fn lemma_unit_of_char(c: char)
    requires
        (c as u32) < 0x10000,
    ensures
        char_units(c).len() == 1,
        char_units(c)[0] == c as u32,
        !is_high_surrogate(char_units(c)[0]),
        !is_low_surrogate(char_units(c)[0]),
        char_units(c)[0] as char == c,
{
}

/// The surrogates are the two blocks of 1024 code units that start at 0xD800.
pub proof fn law_surrogates(unit: u16)
    ensures
        is_high_surrogate(unit) <==> unit as int / 0x400 == 0x36,
        is_low_surrogate(unit) <==> unit as int / 0x400 == 0x37,
{
}

/// A character of the basic plane is the one code unit of its number. Another one is a high and a
/// low surrogate, which carry ten bits each of what its number has beyond the basic plane.
pub proof fn law_code_units(c: char)
    ensures
        (c as int) < 0x10000 ==> char_units(c).len() == 1 && char_units(c)[0] as int == c as int,
        c as int >= 0x10000 ==> {
            &&& char_units(c).len() == 2
            &&& 0xD800 <= char_units(c)[0] <= 0xDBFF
            &&& 0xDC00 <= char_units(c)[1] <= 0xDFFF
            &&& (char_units(c)[0] - 0xD800) * 0x400 + (char_units(c)[1] - 0xDC00) == c as int
                - 0x10000
        },
{
}

/// A text has the code units of its characters, in order, and as a wide string one NUL more.
pub proof fn law_units_of_text(text: Seq<char>, c: char)
    ensures
        units_of(seq![]) == Seq::<u16>::empty(),
        units_of(text.push(c)) == units_of(text) + char_units(c),
        wide(text).len() == units_of(text).len() + 1,
        wide(text).last() == 0,
        wide(text).drop_last() == units_of(text),
{
    lemma_units_push(text, c);
    assert(wide(text).drop_last() =~= units_of(text));
}

/// Decoding goes on behind a text as if the text were not there.
pub proof fn law_decode_continues(text: Seq<char>, rest: Seq<u16>)
    ensures
        decoded(units_of(text) + rest) == text.map_values(|c: char| Some(c)) + decoded(rest),
    decreases text.len(),
{
    let units = units_of(text) + rest;
    if text.len() == 0 {
        assert(units =~= rest);
        assert(decoded(units) =~= text.map_values(|c: char| Some(c)) + decoded(rest));
    } else {
        let tail = text.drop_first();
        law_decode_continues(tail, rest);
        let c: char = text[0];
        if c as u32 >= 0x10000 {
            lemma_pair_of_char(c);
            assert(units.skip(2) =~= units_of(tail) + rest);
        } else {
            lemma_unit_of_char(c);
            assert(units.skip(1) =~= units_of(tail) + rest);
        }
        assert(decoded(units) =~= text.map_values(|c: char| Some(c)) + decoded(rest));
    }
}

/// A surrogate without its partner is one item that is no character, wherever it stands, and what
/// follows it is decoded as if it were not there.
pub proof fn law_unpaired_surrogate(text: Seq<char>, unit: u16, rest: Seq<u16>)
    requires
        0xD800 <= unit <= 0xDFFF,
        unit <= 0xDBFF && rest.len() > 0 ==> !(0xDC00 <= rest[0] <= 0xDFFF),
    ensures
        decoded(units_of(text) + (seq![unit] + rest)) == text.map_values(|c: char| Some(c)) + (seq![
            None,
        ] + decoded(rest)),
{
    let units = seq![unit] + rest;
    law_decode_continues(text, units);
    assert(units.skip(1) =~= rest);
}

/// Decoding loses nothing where no surrogate is unpaired: encoding gives the code units back.
pub proof fn law_encode_inverts_decode(units: Seq<u16>)
    ensures
        well_paired(decoded(units)) ==> units_of(lossy(decoded(units))) == units,
    decreases units.len(),
{
    let items = decoded(units);
    let text = lossy(items);
    if well_paired(items) {
        if units.len() == 0 {
            assert(units_of(text) =~= units);
        } else {
            let taken: int = if starts_with_pair(units) {
                2
            } else {
                1
            };
            let rest = units.skip(taken);
            assert(items[0] is Some);
            assert(items.drop_first() =~= decoded(rest));
            assert forall|i: int| 0 <= i < decoded(rest).len() implies (
            #[trigger] decoded(rest)[i]) is Some by {
                assert(items[i + 1] == decoded(rest)[i]);
            }
            law_encode_inverts_decode(rest);
            assert(text.drop_first() =~= lossy(decoded(rest)));
            if starts_with_pair(units) {
                assert(char_units(text[0]) =~= seq![units[0], units[1]]);
            } else {
                assert(char_units(text[0]) =~= seq![units[0]]);
            }
            assert(units_of(text) =~= units);
        }
    }
}

/// Reading with replacements changes nothing but that each unpaired surrogate becomes U+FFFD.
pub proof fn law_replacements(items: Seq<Option<char>>, i: int)
    requires
        0 <= i < items.len(),
    ensures
        lossy(items).len() == items.len(),
        items[i] matches Some(c) ==> lossy(items)[i] == c,
        items[i] is None ==> lossy(items)[i] as int == 0xFFFD,
{
}

/// A string ends in front of its first NUL, or where the buffer ends.
pub proof fn law_string_ends_at_nul(units: Seq<u16>)
    ensures
        ({
            let string = before_nul(units);
            &&& string.len() <= units.len()
            &&& string == units.take(string.len() as int)
            &&& forall|i: int| 0 <= i < string.len() ==> #[trigger] string[i] != 0
            &&& string.len() < units.len() ==> units[string.len() as int] == 0
        }),
    decreases units.len(),
{
    if units.len() > 0 && units[0] != 0 {
        law_string_ends_at_nul(units.skip(1));
        let string = before_nul(units);
        assert(string =~= units.take(string.len() as int));
    }
}

/// Decoding the code units of a text gives the text back, with no surrogate left unpaired.
pub proof fn law_decode_inverts_encode(text: Seq<char>)
    ensures
        decoded(units_of(text)) == text.map_values(|c: char| Some(c)),
        well_paired(decoded(units_of(text))),
        lossy(decoded(units_of(text))) == text,
    decreases text.len(),
{
    let units = units_of(text);
    if text.len() == 0 {
        assert(decoded(units) =~= text.map_values(|c: char| Some(c)));
    } else {
        let rest = text.drop_first();
        law_decode_inverts_encode(rest);
        let head = char_units(text[0]);
        if text[0] as u32 >= 0x10000 {
            lemma_pair_of_char(text[0]);
            assert(units.skip(2) =~= units_of(rest));
        } else {
            lemma_unit_of_char(text[0]);
            assert(units.skip(1) =~= units_of(rest));
        }
        assert(decoded(units) =~= text.map_values(|c: char| Some(c)));
    }
    assert(lossy(decoded(units)) =~= text);
}

/// Reading a NUL-terminated string that was written from `text` gives `text` back up to its
/// first NUL character: all of it where `text` has none.
pub proof fn law_wide_round_trip(text: Seq<char>)
    ensures
        before_nul(wide(text)) == units_of(text_before_nul(text)),
        lossy(decoded(before_nul(wide(text)))) == text_before_nul(text),
        !text.contains('\0') ==> text_before_nul(text) == text,
    decreases text.len(),
{
    let units = wide(text);
    if text.len() == 0 {
        assert(before_nul(units) =~= units_of(text_before_nul(text)));
    } else {
        let rest = text.drop_first();
        law_wide_round_trip(rest);
        let shown = text_before_nul(text);
        if text[0] == '\0' {
            assert(before_nul(units) =~= units_of(shown));
        } else {
            assert(shown.drop_first() =~= text_before_nul(rest));
            if text[0] as u32 >= 0x10000 {
                lemma_pair_of_char(text[0]);
                assert(units.skip(1).skip(1) =~= wide(rest));
                assert(before_nul(units.skip(1)) =~= seq![units[1]] + before_nul(wide(rest)));
            } else {
                lemma_unit_of_char(text[0]);
                assert(units.skip(1) =~= wide(rest));
            }
            assert(before_nul(units) =~= char_units(text[0]) + before_nul(wide(rest)));
            assert(before_nul(units) =~= units_of(shown));
        }
        if !text.contains('\0') {
            assert(text[0] != '\0');
            assert forall|i: int| 0 <= i < rest.len() implies rest[i] != '\0' by {
                assert(text[i + 1] != '\0');
            }
            assert(shown =~= text);
        }
    }
    law_decode_inverts_encode(text_before_nul(text));
}

/// Encodes a text into UTF-16 code units.
pub fn encode_utf16(text: &str) -> (units: Vec<u16>)
    ensures
        units@ == units_of(text@),
{
    let mut units: Vec<u16> = Vec::new();
    proof {
        assert(text@.take(0) =~= Seq::<char>::empty());
    }
    for c in it: text.chars()
        invariant
            it.seq() == text@,
            units@ == units_of(text@.take(it.index() as int)),
    {
        proof {
            let k = it.index() as int;
            assert(text@.take(k + 1) =~= text@.take(k).push(c));
            lemma_units_push(text@.take(k), c);
            if (c as u32) < 0x10000 {
                lemma_unit_of_char(c);
            }
        }
        let code: u32 = c as u32;
        if code < 0x10000 {
            units.push(code as u16);
        } else {
            let offset: u32 = code - 0x10000;
            units.push((0xD800 + offset / 0x400) as u16);
            units.push((0xDC00 + offset % 0x400) as u16);
        }
    }
    assert(text@.take(text@.len() as int) =~= text@);
    units
}

/// Encodes a text as a NUL-terminated wide string.
pub fn to_wide(text: &str) -> (units: Vec<u16>)
    ensures
        units@ == wide(text@),
{
    let mut units: Vec<u16> = encode_utf16(text);
    units.push(0);
    units
}

/// Decodes the character, or the unpaired surrogate, at `at`, and says how many units it takes.
fn decode_at(units: &[u16], at: usize) -> (r: (Option<char>, usize))
    requires
        at < units@.len(),
    ensures
        1 <= r.1 <= units@.len() - at,
        decoded(units@.skip(at as int)) == seq![r.0] + decoded(units@.skip(at + r.1)),
{
    let first: u16 = units[at];
    let ghost rest = units@.skip(at as int);
    assert(rest.skip(1) =~= units@.skip(at + 1));
    if 0xD800 <= first && first < 0xDC00 {
        if at + 1 < units.len() {
            let second: u16 = units[at + 1];
            if 0xDC00 <= second && second < 0xE000 {
                assert(rest.skip(2) =~= units@.skip(at + 2));
                let code: u32 = 0x10000 + (first as u32 - 0xD800) * 0x400 + (second as u32
                    - 0xDC00);
                return (char::from_u32(code), 2);
            }
        }
        (None, 1)
    } else if 0xDC00 <= first && first < 0xE000 {
        (None, 1)
    } else {
        (char::from_u32(first as u32), 1)
    }
}

/// Decodes UTF-16 code units, with U+FFFD in the place of each unpaired surrogate.
pub fn decode_lossy(units: &[u16]) -> (text: String)
    ensures
        text@ == lossy(decoded(units@)),
{
    let mut text: String = String::new();
    let mut at: usize = 0;
    let ghost mut items: Seq<Option<char>> = seq![];
    assert(units@.skip(0) =~= units@);
    assert(text@ =~= lossy(items));
    assert(items + decoded(units@) =~= decoded(units@));
    while at < units.len()
        invariant
            at <= units@.len(),
            decoded(units@) == items + decoded(units@.skip(at as int)),
            text@ == lossy(items),
        decreases units@.len() - at,
    {
        let (item, taken) = decode_at(units, at);
        let c: char = match item {
            Some(c) => c,
            None => '\u{FFFD}',
        };
        text.push(c);
        proof {
            assert(decoded(units@) =~= items.push(item) + decoded(units@.skip(at + taken)));
            assert(lossy(items.push(item)) =~= lossy(items).push(c));
            items = items.push(item);
        }
        at = at + taken;
    }
    assert(units@.skip(at as int) =~= Seq::<u16>::empty());
    assert(items =~= decoded(units@));
    text
}

/// Decodes UTF-16 code units that hold no unpaired surrogate; `None` where they do.
pub fn decode_strict(units: &[u16]) -> (text: Option<String>)
    ensures
        text is Some <==> well_paired(decoded(units@)),
        text matches Some(t) ==> t@ == lossy(decoded(units@)),
{
    let mut text: String = String::new();
    let mut at: usize = 0;
    let ghost mut items: Seq<Option<char>> = seq![];
    assert(units@.skip(0) =~= units@);
    assert(text@ =~= lossy(items));
    assert(items + decoded(units@) =~= decoded(units@));
    while at < units.len()
        invariant
            at <= units@.len(),
            decoded(units@) == items + decoded(units@.skip(at as int)),
            text@ == lossy(items),
            well_paired(items),
        decreases units@.len() - at,
    {
        let (item, taken) = decode_at(units, at);
        assert(decoded(units@) =~= items.push(item) + decoded(units@.skip(at + taken)));
        match item {
            Some(c) => {
                text.push(c);
                proof {
                    assert(lossy(items.push(item)) =~= lossy(items).push(c));
                    items = items.push(item);
                }
            },
            None => {
                assert(decoded(units@)[items.len() as int] is None);
                return None;
            },
        }
        at = at + taken;
    }
    assert(units@.skip(at as int) =~= Seq::<u16>::empty());
    assert(items =~= decoded(units@));
    Some(text)
}

/// The length of the string in `units`: the place of the first NUL, or of the end.
pub fn wide_len(units: &[u16]) -> (len: usize)
    ensures
        len <= units@.len(),
        units@.take(len as int) == before_nul(units@),
{
    let mut len: usize = 0;
    assert(units@.skip(0) =~= units@);
    assert(units@.take(0) + before_nul(units@) =~= before_nul(units@));
    while len < units.len() && units[len] != 0
        invariant
            len <= units@.len(),
            before_nul(units@) == units@.take(len as int) + before_nul(units@.skip(len as int)),
        decreases units@.len() - len,
    {
        proof {
            let rest = units@.skip(len as int);
            assert(rest.skip(1) =~= units@.skip(len + 1));
            assert(units@.take(len as int) + before_nul(rest) =~= units@.take(len + 1)
                + before_nul(rest.skip(1)));
        }
        len = len + 1;
    }
    assert(before_nul(units@.skip(len as int)) =~= Seq::<u16>::empty());
    assert(units@.take(len as int) =~= before_nul(units@));
    len
}

/// Reads a NUL-terminated wide string, with U+FFFD in the place of each unpaired surrogate.
pub fn from_wide(units: &[u16]) -> (text: String)
    ensures
        text@ == lossy(decoded(before_nul(units@))),
{
    let len: usize = wide_len(units);
    decode_lossy(vstd::slice::slice_subrange(units, 0, len))
}

} // verus!
