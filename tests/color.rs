use key_overlay_rs::color::{parse_color, parse_color_or_default, parse_u8_clamped, Color, ColorError};

#[test]
fn test_parse_color_valid_rgba() {
    let result = parse_color("255,0,128,200");
    assert_eq!(result, Ok(Color { r: 255, g: 0, b: 128, a: 200 }));
}

#[test]
fn test_parse_color_valid_rgb_defaults_alpha() {
    let result = parse_color("255,0,128");
    assert_eq!(result, Ok(Color { r: 255, g: 0, b: 128, a: 255 }));
}

#[test]
fn test_parse_color_all_zeros() {
    let result = parse_color("0,0,0,0");
    assert_eq!(result, Ok(Color { r: 0, g: 0, b: 0, a: 0 }));
}

#[test]
fn test_parse_color_with_whitespace() {
    let result = parse_color(" 255 , 0 , 128 , 200 ");
    assert_eq!(result, Ok(Color { r: 255, g: 0, b: 128, a: 200 }));
}

#[test]
fn test_parse_color_internal_whitespace() {
    let result = parse_color("  255  ,  0  ,  128  ,  200  ");
    assert_eq!(result, Ok(Color { r: 255, g: 0, b: 128, a: 200 }));
}

#[test]
fn test_parse_color_invalid_format_empty() {
    let result = parse_color("");
    assert!(result.is_err());
    match result {
        Err(ColorError::InvalidFormat(_)) => {}
        _ => panic!("expected InvalidFormat error"),
    }
}

#[test]
fn test_parse_color_invalid_format_too_few_parts() {
    let result = parse_color("255,0");
    assert!(result.is_err());
}

#[test]
fn test_parse_color_invalid_format_too_many_parts() {
    let result = parse_color("255,0,128,200,100");
    assert!(result.is_err());
}

#[test]
fn test_parse_color_invalid_non_numeric() {
    let result = parse_color("not,a,color,255");
    assert!(result.is_err());
    match result {
        Err(ColorError::InvalidFormat(msg)) => assert!(msg.contains("not a number")),
        _ => panic!("expected InvalidFormat error"),
    }
}

#[test]
fn test_parse_color_out_of_range_300() {
    let result = parse_color("300,0,0,0");
    assert_eq!(result, Ok(Color { r: 255, g: 0, b: 0, a: 0 }));
}

#[test]
fn test_parse_color_out_of_range_negative() {
    let result = parse_color("-1,0,0,0");
    assert!(result.is_err());
}

#[test]
fn test_parse_color_or_default_valid() {
    let default = Color { r: 100, g: 100, b: 100, a: 100 };
    let result = parse_color_or_default("255,0,0,255", default);
    assert_eq!(result, Color { r: 255, g: 0, b: 0, a: 255 });
}

#[test]
fn test_parse_color_or_default_invalid() {
    let default = Color { r: 100, g: 100, b: 100, a: 100 };
    let result = parse_color_or_default("invalid", default);
    assert_eq!(result, default);
}

#[test]
fn test_parse_color_or_default_empty() {
    let default = Color { r: 50, g: 50, b: 50, a: 255 };
    let result = parse_color_or_default("", default);
    assert_eq!(result, default);
}

#[test]
fn test_color_equality() {
    let c1 = Color { r: 255, g: 0, b: 0, a: 255 };
    let c2 = Color { r: 255, g: 0, b: 0, a: 255 };
    assert_eq!(c1, c2);
}

#[test]
fn test_color_inequality() {
    let c1 = Color { r: 255, g: 0, b: 0, a: 255 };
    let c2 = Color { r: 255, g: 0, b: 0, a: 200 };
    assert_ne!(c1, c2);
}

#[test]
fn parse_color_error_messages() {
    assert_eq!(parse_color("  "), Err(ColorError::InvalidFormat("empty string".to_string())));
    assert_eq!(
        parse_color("255,0"),
        Err(ColorError::InvalidFormat("expected 3 or 4 components, got 2".to_string()))
    );
    assert_eq!(
        parse_color("1,2,3,4,5,6,7,8,9,10,11,12"),
        Err(ColorError::InvalidFormat("expected 3 or 4 components, got 12".to_string()))
    );
    assert_eq!(
        parse_color("1, x ,3"),
        Err(ColorError::InvalidFormat("not a number: x".to_string()))
    );
    assert_eq!(
        parse_color("1,2,3,"),
        Err(ColorError::InvalidFormat("not a number: ".to_string()))
    );
}

#[test]
fn parse_color_accepts_plus_sign_and_huge_numbers() {
    assert_eq!(parse_color("+1,2,3"), Ok(Color { r: 1, g: 2, b: 3, a: 255 }));
    assert_eq!(parse_color("4294967295,0,0"), Ok(Color { r: 255, g: 0, b: 0, a: 255 }));
    assert!(parse_color("4294967296,0,0").is_err());
    assert!(parse_color("+,0,0").is_err());
    assert!(parse_color("1 2,0,0").is_err());
}

#[test]
fn parse_u8_clamped_trims_and_clamps() {
    assert_eq!(parse_u8_clamped(" 42 "), Ok(Some(42)));
    assert_eq!(parse_u8_clamped("256"), Ok(Some(255)));
    assert_eq!(
        parse_u8_clamped(" abc "),
        Err(ColorError::InvalidFormat("not a number: abc".to_string()))
    );
}

#[test]
fn color_error_text() {
    assert_eq!(
        ColorError::InvalidFormat("x".to_string()).to_string(),
        "Invalid color format: x"
    );
    assert_eq!(
        ColorError::OutOfRange("red: 300".to_string()).to_string(),
        "Color value out of range: red: 300"
    );
}
