use rosin_win::offset::{byte_len, utf16_offset_to_utf8};
use rosin_win::utf16::{decode_lossy, decode_strict, encode_utf16, from_wide, to_wide, wide_len};

const SAMPLES: [&str; 8] = [
    "",
    "plain",
    "gr\u{fc}\u{df}e",
    "\u{4f60}\u{597d}",
    "a\u{1F600}b",
    "\u{10000}\u{10FFFF}",
    "\u{D7FF}\u{E000}\u{FFFF}",
    "tab\tline\n",
];

#[test]
fn wide_strings_end_with_nul() {
    assert_eq!(to_wide("ab"), vec![97, 98, 0]);
    assert_eq!(to_wide(""), vec![0]);
}

#[test]
fn encoding_agrees_with_std() {
    for text in SAMPLES {
        let units: Vec<u16> = text.encode_utf16().collect();
        assert_eq!(encode_utf16(text), units);
    }
}

#[test]
fn every_character_is_encoded_as_std_does() {
    let mut code = 0u32;
    while code <= 0x10FFFF {
        if let Some(c) = char::from_u32(code) {
            let text = c.to_string();
            let units: Vec<u16> = text.encode_utf16().collect();
            assert_eq!(encode_utf16(&text), units);
            assert_eq!(decode_lossy(&units), text);
        }
        code += 251;
    }
}

#[test]
fn decoding_inverts_encoding() {
    for text in SAMPLES {
        let units = encode_utf16(text);
        assert_eq!(decode_lossy(&units), text);
        assert_eq!(decode_strict(&units), Some(text.to_string()));
    }
}

#[test]
fn unpaired_surrogates_are_replaced_or_refused() {
    let cases: Vec<Vec<u16>> = vec![
        vec![0xD800],
        vec![0xDC00],
        vec![0x61, 0xD800, 0x62],
        vec![0xD800, 0xD800, 0xDC00],
        vec![0xDC00, 0xD800],
        vec![0xDBFF, 0xDFFF, 0xDFFF],
    ];
    for units in cases {
        assert_eq!(decode_lossy(&units), String::from_utf16_lossy(&units));
        assert_eq!(decode_strict(&units), None);
    }
    assert_eq!(decode_lossy(&[0x61, 0xD800, 0x62]), "a\u{FFFD}b");
    assert_eq!(decode_strict(&[0xD83D, 0xDE00]), Some("\u{1F600}".to_string()));
}

#[test]
fn wide_strings_are_read_up_to_the_first_nul() {
    assert_eq!(from_wide(&[0x68, 0x69, 0, 0x78]), "hi");
    assert_eq!(from_wide(&[0x68, 0x69]), "hi");
    assert_eq!(from_wide(&[0, 0x68]), "");
    assert_eq!(from_wide(&[]), "");
    assert_eq!(wide_len(&[0x68, 0x69, 0, 0x78]), 2);
    assert_eq!(wide_len(&[1, 2, 3]), 3);
    assert_eq!(wide_len(&[0]), 0);
}

#[test]
fn written_wide_strings_read_back() {
    for text in SAMPLES {
        assert_eq!(from_wide(&to_wide(text)), text);
    }
    assert_eq!(from_wide(&to_wide("cut\0off")), "cut");
}

#[test]
fn byte_lengths() {
    for text in SAMPLES {
        assert_eq!(byte_len(text), text.len());
    }
}

#[test]
fn offsets_of_prefixes() {
    for text in SAMPLES {
        for (at, _) in text.char_indices() {
            let units = text[..at].encode_utf16().count();
            assert_eq!(utf16_offset_to_utf8(text, units), Some(at));
        }
        let all = text.encode_utf16().count();
        assert_eq!(utf16_offset_to_utf8(text, all), Some(text.len()));
    }
}

#[test]
fn offsets_past_the_end_clamp() {
    assert_eq!(utf16_offset_to_utf8("ab", 7), Some(2));
    assert_eq!(utf16_offset_to_utf8("", 0), Some(0));
    assert_eq!(utf16_offset_to_utf8("", usize::MAX), Some(0));
    assert_eq!(utf16_offset_to_utf8("\u{1F600}", 9), Some(4));
}

#[test]
fn offsets_inside_a_pair_are_dropped() {
    assert_eq!(utf16_offset_to_utf8("\u{1F600}", 1), None);
    assert_eq!(utf16_offset_to_utf8("a\u{1F600}b", 2), None);
    assert_eq!(utf16_offset_to_utf8("a\u{1F600}b", 1), Some(1));
    assert_eq!(utf16_offset_to_utf8("a\u{1F600}b", 3), Some(5));
    assert_eq!(utf16_offset_to_utf8("a\u{1F600}b", 4), Some(6));
}

#[test]
fn offsets_are_boundaries_and_grow() {
    for text in SAMPLES {
        let mut last = 0;
        for units in 0..text.encode_utf16().count() + 3 {
            if let Some(at) = utf16_offset_to_utf8(text, units) {
                assert!(text.is_char_boundary(at));
                assert!(last <= at);
                last = at;
            }
        }
    }
}
