use ddns_sync::text::{is_space_char, trim};

#[test]
fn trims_address_reply() {
    assert_eq!(trim("  203.0.113.5\n"), "203.0.113.5");
}

#[test]
fn trim_keeps_inner_space() {
    assert_eq!(trim("\t a b \r\n"), "a b");
}

#[test]
fn trim_of_blank_is_empty() {
    assert_eq!(trim(" \n\t "), "");
    assert_eq!(trim(""), "");
}

#[test]
fn trim_removes_unicode_space() {
    assert_eq!(trim("\u{3000}198.51.100.7\u{a0}\u{2028}"), "198.51.100.7");
}

#[test]
fn trim_leaves_clean_text() {
    assert_eq!(trim("2001:db8::1"), "2001:db8::1");
}

#[test]
fn space_chars_match_std() {
    for c in ['\t', '\n', '\u{b}', '\u{c}', '\r', ' ', '\u{85}', '\u{a0}', '\u{1680}', '\u{2000}', '\u{200a}', '\u{2028}', '\u{2029}', '\u{202f}', '\u{205f}', '\u{3000}', 'a', '0', '\u{200b}', '\u{feff}', '.'] {
        assert_eq!(is_space_char(c), c.is_whitespace(), "{:?}", c);
    }
}
