use key_overlay_rs::font::load_font;

#[test]
fn test_load_font_returns_non_empty() {
    let font_data = load_font();
    assert!(!font_data.is_empty(), "Font data should not be empty");
}

#[test]
fn test_load_font_is_valid_ttf() {
    let font_data = load_font();
    assert!(font_data.len() >= 4, "Font should be at least 4 bytes");
    let first_four = &font_data[..4];
    let is_ttf = (first_four[0] == 0x00 && first_four[1] == 0x01 && first_four[2] == 0x00 && first_four[3] == 0x00)
        || (first_four == b"OTTO")
        || (first_four == b"true");
    assert!(is_ttf, "Font should have valid TTF/OTF header");
}

#[test]
fn test_load_font_returns_static_reference() {
    let font1 = load_font();
    let font2 = load_font();
    assert_eq!(font1.as_ptr(), font2.as_ptr(), "Font should be a static reference");
}
