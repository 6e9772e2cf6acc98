use showsk_rs::text::{is_blank, is_white_space};

#[test]
fn white_space_matches_std_for_every_char() {
    for code in 0u32..=0x10FFFF {
        if let Some(c) = char::from_u32(code) {
            assert_eq!(is_white_space(c), c.is_whitespace(), "{:?}", c);
        }
    }
}

#[test]
fn blank_matches_trim_is_empty() {
    for s in ["", " ", "\t\n", "\u{a0}\u{3000}", " a ", "a", "\u{200b}", "\u{85}x"] {
        assert_eq!(is_blank(s), s.trim().is_empty(), "{:?}", s);
    }
}
