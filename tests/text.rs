use key_overlay_rs::text::{decimal_text, is_whitespace, parse_u32, split, trim};

#[test]
fn whitespace_matches_std() {
    for code in 0u32..=0x3100 {
        if let Some(c) = char::from_u32(code) {
            assert_eq!(is_whitespace(c), c.is_whitespace(), "U+{code:04X}");
        }
    }
    assert_eq!(is_whitespace('\u{10FFFF}'), '\u{10FFFF}'.is_whitespace());
}

#[test]
fn trim_matches_std() {
    for s in ["", "  ", " a b ", "\u{3000}x\u{2029}", "\t\n z \r", "\u{85}y\u{a0}"] {
        assert_eq!(trim(s), s.trim());
    }
}

#[test]
fn decimal_text_matches_display() {
    for n in [0u64, 7, 10, 99, 100, 12345, u64::MAX] {
        assert_eq!(decimal_text(n), n.to_string());
    }
}

#[test]
fn parse_u32_matches_std() {
    for s in ["0", "+12", "4294967295", "4294967296", "", "+", "-1", "1a", " 1", "007"] {
        assert_eq!(parse_u32(s), s.parse::<u32>().ok(), "{s:?}");
    }
}

#[test]
fn split_matches_std() {
    for s in ["", ",", "a,b", ",a,,b,", "abc"] {
        let mine: Vec<&str> = split(s, ',');
        let theirs: Vec<&str> = s.split(',').collect();
        assert_eq!(mine, theirs);
    }
}
