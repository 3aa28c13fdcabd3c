use lg_hue_sync::text::chars_of;
use lg_hue_sync::text::decimal_text;
use lg_hue_sync::text::hex8_text;
use lg_hue_sync::text::is_white_space;
use lg_hue_sync::text::same_text;
use lg_hue_sync::text::split_once;
use lg_hue_sync::text::trim;

#[test]
fn white_space_is_what_unicode_says() {
    for code in 0..=0x10ffffu32 {
        if let Some(c) = char::from_u32(code) {
            assert_eq!(is_white_space(c), c.is_whitespace(), "{:x}", code);
        }
    }
}

#[test]
fn trimming_keeps_the_space_inside() {
    for text in ["", " ", " a b ", "\u{3000}x\u{2003}", "abc", "\n\t", "é \u{a0}"] {
        assert_eq!(trim(text), text.trim());
    }
}

#[test]
fn splitting_takes_the_first_separator() {
    for text in ["", "/", "a/b", "a/b/c", "ab", "é/ü", "//"] {
        assert_eq!(split_once(text, '/'), text.split_once('/'));
    }
}

#[test]
fn numerals_have_no_padding_but_addresses_do() {
    for value in [0, 1, 9, 10, 99, 100, 2048, 65535, u32::MAX] {
        assert_eq!(decimal_text(value), value.to_string());
        assert_eq!(hex8_text(value), format!("{:08X}", value));
    }
}

#[test]
fn texts_are_compared_by_their_characters() {
    assert!(same_text("frameRate", "frameRate"));
    assert!(!same_text("frameRate", "framerate"));
    assert!(!same_text("a", "ab"));
    assert_eq!(chars_of("aé"), vec!['a', 'é']);
}
