use key_overlay_rs::config::{
    color_to_text, parse_app_color, resolve_config, validate_config, RawConfig, RawGeneral, RawKeyConfig,
};
use key_overlay_rs::types::{AppConfig, AppError, Color};

/// Pixels as thousandths of a pixel.
fn px(p: f64) -> i64 {
    (p * 1000.0).round() as i64
}

fn raw_key(name: &str, color: &str, size: f64) -> RawKeyConfig {
    RawKeyConfig {
        name: Some(name.to_string()),
        color: Some(color.to_string()),
        size: Some((size * 1000.0).round() as u32),
    }
}

/// The settings of a complete configuration file.
fn full_valid() -> RawConfig {
    RawConfig {
        general: RawGeneral {
            height: Some(px(700.0)),
            key_size: Some(px(70.0)),
            bar_speed: Some(px(600.0)),
            background_color: Some("0,0,0,255".to_string()),
            margin: Some(px(25.0)),
            outline_thickness: Some(px(5.0)),
            fading: Some(true),
            counter: Some(true),
            fps: Some(60),
        },
        key: vec![raw_key("Z", "255,0,0,255", 1.0), raw_key("X", "0,255,255,255", 1.0)],
    }
}

fn same_keys(a: &AppConfig, b: &AppConfig) -> bool {
    a.keys.len() == b.keys.len()
        && a.keys.iter().zip(b.keys.iter()).all(|(x, y)| {
            x.key_name == y.key_name && x.display_name == y.display_name && x.color == y.color && x.size == y.size
        })
}

fn same_config(a: &AppConfig, b: &AppConfig) -> bool {
    a.height == b.height
        && a.key_size == b.key_size
        && a.bar_speed == b.bar_speed
        && a.background_color == b.background_color
        && a.margin == b.margin
        && a.outline_thickness == b.outline_thickness
        && a.fading == b.fading
        && a.counter == b.counter
        && a.fps == b.fps
        && same_keys(a, b)
}

#[test]
fn test_config_load_from_str_full_valid_toml() {
    let parsed = resolve_config(&full_valid()).expect("full config should parse");

    assert_eq!(parsed.height as i64, px(700.0));
    assert_eq!(parsed.key_size as i64, px(70.0));
    assert_eq!(parsed.bar_speed as i64, px(600.0));
    assert_eq!(parsed.background_color, Color::from_rgba_u8(0, 0, 0, 255));
    assert_eq!(parsed.margin as i64, px(25.0));
    assert_eq!(parsed.outline_thickness as i64, px(5.0));
    assert!(parsed.fading);
    assert!(parsed.counter);
    assert_eq!(parsed.fps, 60);
    assert_eq!(parsed.keys.len(), 2);
    assert_eq!(parsed.keys[0].key_name, "Z");
    assert_eq!(parsed.keys[1].key_name, "X");
}

#[test]
fn test_config_load_from_str_missing_fields_uses_defaults() {
    let raw = RawConfig {
        general: RawGeneral {
            height: Some(px(820.0)),
            ..RawGeneral::default()
        },
        ..RawConfig::default()
    };
    let parsed = resolve_config(&raw).expect("partial config should parse");
    let defaults = AppConfig::default();

    assert_eq!(parsed.height as i64, px(820.0));
    assert_eq!(parsed.key_size, defaults.key_size);
    assert_eq!(parsed.bar_speed, defaults.bar_speed);
    assert_eq!(parsed.background_color, defaults.background_color);
    assert!(same_keys(&parsed, &defaults));
}

#[test]
fn test_config_load_from_str_invalid_background_color_returns_error() {
    let raw = RawConfig {
        general: RawGeneral {
            background_color: Some("not-a-color".to_string()),
            ..RawGeneral::default()
        },
        ..RawConfig::default()
    };
    let err = resolve_config(&raw).expect_err("invalid color should error");
    assert!(err.to_string().contains("backgroundColor"));
}

#[test]
fn test_config_load_from_str_empty_file_returns_default() {
    let parsed = resolve_config(&RawConfig::default()).expect("empty config should parse as default");
    assert!(same_config(&parsed, &AppConfig::default()));
}

#[test]
fn test_config_load_from_str_multiple_keys() {
    let parsed = resolve_config(&full_valid()).expect("multiple keys should parse");

    assert_eq!(parsed.keys.len(), 2);
    assert_eq!(parsed.keys[0].display_name, "Z");
    assert_eq!(parsed.keys[1].display_name, "X");
}

#[test]
fn test_config_load_from_str_negative_bar_speed_warns_and_uses_default() {
    let raw = RawConfig {
        general: RawGeneral {
            bar_speed: Some(px(-25.0)),
            ..RawGeneral::default()
        },
        ..RawConfig::default()
    };
    // A snapshot whose bar speed is not positive is rejected as a whole, so
    // that the active configuration stays in effect.
    let err = resolve_config(&raw).expect_err("negative bar speed should be rejected");
    assert_eq!(err, AppError::Config("bar_speed must be positive".to_string()));
    let zero = RawConfig {
        general: RawGeneral { bar_speed: Some(0), ..RawGeneral::default() },
        ..RawConfig::default()
    };
    assert!(resolve_config(&zero).is_err());
}

#[test]
fn test_validate_config_negative_bar_speed_reports_warning() {
    // Speeds are unsigned: a negative speed in a file is read as zero.
    let config = AppConfig {
        bar_speed: 0,
        ..Default::default()
    };

    let warnings = validate_config(&config);
    assert!(warnings.iter().any(|w| w.contains("bar_speed")));
}

#[test]
fn test_config_load_from_str_missing_key_fields_use_defaults() {
    let raw = RawConfig {
        key: vec![RawKeyConfig {
            name: Some("C".to_string()),
            ..RawKeyConfig::default()
        }],
        ..RawConfig::default()
    };
    let parsed = resolve_config(&raw).expect("partial key should parse");
    assert_eq!(parsed.keys.len(), 1);
    assert_eq!(parsed.keys[0].key_name, "C");
    assert_eq!(parsed.keys[0].display_name, "C");
    assert_eq!(parsed.keys[0].size, 1000);
    assert_eq!(parsed.keys[0].color, Color::from_rgba_u8(255, 255, 255, 255));
}

#[test]
fn test_config_load_from_str_invalid_key_color_returns_error() {
    let raw = RawConfig {
        key: vec![RawKeyConfig {
            name: Some("A".to_string()),
            color: Some("wrong".to_string()),
            ..RawKeyConfig::default()
        }],
        ..RawConfig::default()
    };
    let err = resolve_config(&raw).expect_err("invalid key color should error");
    assert!(err.to_string().contains("key color"));
}

#[test]
fn key_without_name_is_an_error() {
    let raw = RawConfig {
        key: vec![raw_key("A", "1,2,3", 1.0), RawKeyConfig { name: Some("   ".to_string()), ..RawKeyConfig::default() }],
        ..RawConfig::default()
    };
    assert_eq!(
        resolve_config(&raw).err(),
        Some(AppError::Config("key entry missing required name".to_string()))
    );
}

#[test]
fn key_names_are_trimmed() {
    let raw = RawConfig {
        key: vec![raw_key("  Mouse1 ", "1,2,3", 1.5)],
        ..RawConfig::default()
    };
    let parsed = resolve_config(&raw).unwrap();
    assert_eq!(parsed.keys[0].key_name, "Mouse1");
    assert_eq!(parsed.keys[0].size, 1500);
    assert_eq!(parsed.keys[0].color, Color::from_rgba_u8(1, 2, 3, 255));
}

#[test]
fn negative_lengths_are_clamped_to_zero() {
    let raw = RawConfig {
        general: RawGeneral { margin: Some(px(-3.0)), ..RawGeneral::default() },
        ..RawConfig::default()
    };
    assert_eq!(resolve_config(&raw).unwrap().margin, 0);
}

#[test]
fn validate_reports_empty_keys_after_speed() {
    let config = AppConfig {
        bar_speed: 0,
        keys: vec![],
        ..AppConfig::default()
    };
    let warnings = validate_config(&config);
    assert_eq!(
        warnings,
        vec![
            "bar_speed must be positive; the configuration is rejected".to_string(),
            "keys list is empty; using defaults is recommended".to_string()
        ]
    );
    assert!(validate_config(&AppConfig::default()).is_empty());
}

#[test]
fn app_color_error_names_the_field() {
    assert_eq!(
        parse_app_color("1,2", "backgroundColor"),
        Err(AppError::Config(
            "invalid backgroundColor: Invalid color format: expected 3 or 4 components, got 2".to_string()
        ))
    );
}

#[test]
fn color_text_round_trips() {
    let c = Color::from_rgba_u8(10, 0, 255, 7);
    assert_eq!(color_to_text(c), "10,0,255,7");
    assert_eq!(key_overlay_rs::color::parse_color(&color_to_text(c)), Ok(c));
}

#[test]
fn bad_colors_are_reported_before_bar_speed() {
    let raw = RawConfig {
        general: RawGeneral {
            bar_speed: Some(-1),
            background_color: Some("x".to_string()),
            ..RawGeneral::default()
        },
        ..RawConfig::default()
    };
    assert!(resolve_config(&raw).unwrap_err().to_string().contains("backgroundColor"));
}
