use term_cat::text::{char_is_whitespace, chars_of, string_of_range};

#[test]
fn whitespace_agrees_with_std_on_every_char() {
    for u in 0u32..=0x10FFFF {
        if let Some(c) = char::from_u32(u) {
            assert_eq!(char_is_whitespace(c), c.is_whitespace(), "U+{u:04X}");
        }
    }
}

#[test]
fn chars_and_ranges_round_trip() {
    let cs = chars_of("héllo wörld");
    assert_eq!(cs.len(), 11);
    assert_eq!(string_of_range(&cs, 6, 11), "wörld");
    assert_eq!(string_of_range(&cs, 3, 3), "");
}
