use key_overlay_rs::layout::{calculate_column_width, calculate_key_x_positions, calculate_window_width};
use key_overlay_rs::types::{AppConfig, Color, KeyConfig};

/// Pixels as thousandths of a pixel.
fn px(p: f64) -> u32 {
    (p * 1000.0).round() as u32
}

/// Pixels as thousandths of a pixel, for results.
fn wide(p: f64) -> u64 {
    (p * 1000.0).round() as u64
}

/// A multiplier in thousandths.
fn times(m: f64) -> u32 {
    (m * 1000.0).round() as u32
}

fn key(name: &str, color: Color, size: f64) -> KeyConfig {
    KeyConfig {
        key_name: name.to_string(),
        display_name: name.to_string(),
        color,
        size: times(size),
    }
}

#[test]
fn test_calculate_column_width_single_key() {
    let width = calculate_column_width(px(70.0), times(1.0), px(5.0), px(25.0));
    assert_eq!(width, wide(105.0), "column width");
}

#[test]
fn test_calculate_column_width_with_size_multiplier() {
    let width = calculate_column_width(px(70.0), times(2.0), px(5.0), px(25.0));
    assert_eq!(width, wide(175.0), "column width with 2x multiplier");
}

#[test]
fn test_calculate_column_width_zero_outline() {
    let width = calculate_column_width(px(50.0), times(1.0), px(0.0), px(10.0));
    assert_eq!(width, wide(60.0), "column width with no outline");
}

#[test]
fn test_calculate_window_width_two_keys_default_config() {
    let config = AppConfig::default();
    assert_eq!(calculate_window_width(&config), wide(235.0), "window width for 2 default keys");
}

#[test]
fn test_calculate_window_width_single_key() {
    let config = AppConfig {
        keys: vec![key("Z", Color::from_rgba_u8(255, 0, 0, 255), 1.0)],
        ..AppConfig::default()
    };
    assert_eq!(calculate_window_width(&config), wide(130.0), "window width for single key");
}

#[test]
fn test_calculate_window_width_three_keys_mixed_sizes() {
    let config = AppConfig {
        key_size: px(70.0),
        margin: px(25.0),
        outline_thickness: px(5.0),
        keys: vec![
            key("Z", Color::black(), 1.0),
            key("X", Color::black(), 1.5),
            key("C", Color::black(), 2.0),
        ],
        ..AppConfig::default()
    };
    assert_eq!(calculate_window_width(&config), wide(445.0), "window width with 3 mixed-size keys");
}

#[test]
fn test_calculate_window_width_custom_margins_and_outline() {
    let config = AppConfig {
        key_size: px(50.0),
        margin: px(10.0),
        outline_thickness: px(3.0),
        keys: vec![key("A", Color::black(), 1.0), key("B", Color::black(), 1.0)],
        ..AppConfig::default()
    };
    assert_eq!(calculate_window_width(&config), wide(142.0), "window width with custom margins/outline");
}

#[test]
fn test_calculate_key_x_positions_two_keys() {
    let config = AppConfig::default();
    let positions = calculate_key_x_positions(&config);

    assert_eq!(positions.len(), 2, "should have 2 positions");
    assert_eq!(positions[0], wide(25.0), "first key x position");
    assert_eq!(positions[1], wide(130.0), "second key x position");
}

#[test]
fn test_calculate_key_x_positions_single_key() {
    let config = AppConfig {
        keys: vec![key("Z", Color::black(), 1.0)],
        ..AppConfig::default()
    };
    let positions = calculate_key_x_positions(&config);

    assert_eq!(positions.len(), 1, "should have 1 position");
    assert_eq!(positions[0], wide(25.0), "single key starts at margin");
}

#[test]
fn test_calculate_key_x_positions_sequential_and_non_overlapping() {
    let config = AppConfig {
        key_size: px(70.0),
        margin: px(25.0),
        outline_thickness: px(5.0),
        keys: vec![
            key("Z", Color::black(), 1.0),
            key("X", Color::black(), 1.0),
            key("C", Color::black(), 1.0),
        ],
        ..AppConfig::default()
    };
    let positions = calculate_key_x_positions(&config);

    assert_eq!(positions.len(), 3, "should have 3 positions");
    assert_eq!(positions[0], wide(25.0), "key 0 at margin");
    assert_eq!(positions[1], wide(130.0), "key 1 at 25 + 105");
    assert_eq!(positions[2], wide(235.0), "key 2 at 130 + 105");

    let column_width = wide(105.0);
    for i in 0..positions.len() - 1 {
        let current_right = positions[i] + column_width;
        let next_left = positions[i + 1];
        assert!(current_right <= next_left, "keys {} and {} overlap", i, i + 1);
    }
}

#[test]
fn test_calculate_key_x_positions_mixed_sizes() {
    let config = AppConfig {
        key_size: px(70.0),
        margin: px(25.0),
        outline_thickness: px(5.0),
        keys: vec![key("Z", Color::black(), 1.0), key("X", Color::black(), 1.5)],
        ..AppConfig::default()
    };
    let positions = calculate_key_x_positions(&config);

    assert_eq!(positions.len(), 2, "should have 2 positions");
    assert_eq!(positions[0], wide(25.0), "first key starts at margin");
    assert_eq!(positions[1], wide(130.0), "second key starts after first");
}

#[test]
fn test_calculate_key_x_positions_empty_keys() {
    let config = AppConfig {
        keys: vec![],
        ..AppConfig::default()
    };
    let positions = calculate_key_x_positions(&config);
    assert_eq!(positions.len(), 0, "should have no positions for no keys");
}

#[test]
fn window_width_grows_with_another_key() {
    let mut config = AppConfig::default();
    let before = calculate_window_width(&config);
    config.keys.push(key("C", Color::black(), 0.5));
    let after = calculate_window_width(&config);
    assert!(after > before);
    assert_eq!(after, wide(235.0 + 35.0 + 10.0 + 25.0));
}

#[test]
fn window_width_of_no_keys_is_the_margin() {
    let config = AppConfig {
        keys: vec![],
        ..AppConfig::default()
    };
    assert_eq!(calculate_window_width(&config), wide(25.0));
}

#[test]
fn column_width_rounds_the_key_part_down() {
    // 0.001 px * 1.5 is below a thousandth of a pixel.
    assert_eq!(calculate_column_width(1, times(1.5), 0, 0), 1);
    assert_eq!(calculate_column_width(u32::MAX, u32::MAX, u32::MAX, u32::MAX),
        (u32::MAX as u64 * u32::MAX as u64) / 1000 + 3 * u32::MAX as u64);
}
