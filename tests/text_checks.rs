use orbital_wallpaper::text::{blank, has_prefix, header_text, lower_text, white_space};

#[test]
fn blank_strings() {
    assert!(blank(""));
    assert!(blank("   "));
    assert!(blank("\t\n \r"));
    assert!(blank("\u{00a0}\u{3000}"));
    assert!(!blank(" x "));
    assert!(!blank("https://example.com/a.jpg"));
}

#[test]
fn white_space_matches_std() {
    for n in 0u32..0x3100 {
        if let Some(c) = char::from_u32(n) {
            assert_eq!(white_space(c), c.is_whitespace(), "code point {n:#x}");
        }
    }
}

#[test]
fn header_text_bytes() {
    assert!(header_text(b"image/png"));
    assert!(header_text(b"text/html;\tcharset=utf-8"));
    assert!(header_text(b""));
    assert!(!header_text(b"image/\x7f"));
    assert!(!header_text(b"image/\n"));
    assert!(!header_text(&[0xc3, 0xa9]));
}

#[test]
fn lower_text_lowers_ascii_letters() {
    assert_eq!(lower_text(b"IMAGE/PNG"), "image/png");
    assert_eq!(lower_text(b"Image/Jpeg; Q=0.5"), "image/jpeg; q=0.5");
    assert_eq!(lower_text(b""), "");
}

#[test]
fn prefix_checks() {
    assert!(has_prefix("image/png", "image/"));
    assert!(has_prefix("image/", "image/"));
    assert!(!has_prefix("image", "image/"));
    assert!(!has_prefix("text/image/", "image/"));
    assert!(has_prefix("anything", ""));
}
