use nft_fetch::text::is_padding_char;
use nft_fetch::text::sanitize;

#[test]
fn nul_padding_is_stripped() {
    assert_eq!(sanitize("Foo\0\0\0"), "Foo");
}

#[test]
fn padded_field_of_full_width_is_stripped() {
    let mut stored = String::from("Degen Ape #1");
    while stored.len() < 32 {
        stored.push('\0');
    }
    assert_eq!(stored.len(), 32);
    assert_eq!(sanitize(&stored), "Degen Ape #1");
}

#[test]
fn whitespace_around_the_text_is_stripped() {
    assert_eq!(sanitize("  Foo \t\n"), "Foo");
    assert_eq!(sanitize(" \0Foo Bar\0 \t\0"), "Foo Bar");
}

#[test]
fn leading_nul_is_stripped() {
    assert_eq!(sanitize("\0\0Foo"), "Foo");
}

#[test]
fn interior_padding_is_kept() {
    assert_eq!(sanitize("a\0b"), "a\0b");
    assert_eq!(sanitize("\0a \0 b\0"), "a \0 b");
}

#[test]
fn text_of_padding_only_becomes_empty() {
    assert_eq!(sanitize("\0\0\0\0"), "");
    assert_eq!(sanitize(" \0 \t"), "");
    assert_eq!(sanitize(""), "");
}

#[test]
fn clean_text_is_unchanged() {
    assert_eq!(sanitize("https://example.com/meta.json"), "https://example.com/meta.json");
    assert_eq!(sanitize("X"), "X");
}

#[test]
fn text_beyond_ascii_is_kept_whole() {
    assert_eq!(sanitize("caf\u{e9}\0\0"), "caf\u{e9}");
    assert_eq!(sanitize("\u{3000}\u{540d}\u{524d}\u{2003}\0"), "\u{540d}\u{524d}");
    assert_eq!(sanitize("\u{1F600}\0"), "\u{1F600}");
}

#[test]
fn sanitising_twice_changes_nothing_more() {
    let once = sanitize(" \0Foo Bar\0 ");
    let twice = sanitize(&once);
    assert_eq!(once, twice);
}

#[test]
fn padding_is_nul_or_unicode_whitespace() {
    let mut code: u32 = 0;
    while code <= 0x10FFFF {
        if let Some(c) = char::from_u32(code) {
            assert_eq!(is_padding_char(c), c == '\0' || c.is_whitespace(), "U+{:04X}", code);
        }
        code += 1;
    }
}

#[test]
fn padding_examples() {
    assert!(is_padding_char('\0'));
    assert!(is_padding_char(' '));
    assert!(is_padding_char('\u{a0}'));
    assert!(!is_padding_char('F'));
    assert!(!is_padding_char('\u{1}'));
    assert!(!is_padding_char('\u{200b}'));
}
