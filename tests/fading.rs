use key_overlay_rs::fading::{calculate_fade_alpha, OPAQUE};

/// Pixels as thousandths of a pixel.
fn px(p: f64) -> i64 {
    (p * 1000.0).round() as i64
}

fn alpha(y: f64, window_height: f64, fade_height: f64) -> f32 {
    calculate_fade_alpha(px(y), px(window_height), px(fade_height)) as f32 / OPAQUE as f32
}

const EPSILON: f32 = 1e-6;

fn assert_f32_eq(actual: f32, expected: f32, msg: &str) {
    assert!(
        (actual - expected).abs() < EPSILON,
        "{}: actual={}, expected={}",
        msg,
        actual,
        expected
    );
}

#[test]
fn test_fade_alpha_at_bottom_is_opaque() {
    assert_f32_eq(alpha(0.0, 800.0, 100.0), 1.0, "Bottom of window should be fully opaque");
}

#[test]
fn test_fade_alpha_at_fade_start_is_opaque() {
    let window_height = 800.0;
    let fade_height = 100.0;
    let fade_start = window_height - fade_height;
    assert_f32_eq(
        alpha(fade_start, window_height, fade_height),
        1.0,
        "At fade region start should be fully opaque",
    );
}

#[test]
fn test_fade_alpha_at_top_is_transparent() {
    assert_f32_eq(alpha(800.0, 800.0, 100.0), 0.0, "Top of window should be fully transparent");
}

#[test]
fn test_fade_alpha_beyond_top_is_transparent() {
    assert_f32_eq(alpha(900.0, 800.0, 100.0), 0.0, "Beyond top of window should be fully transparent");
}

#[test]
fn test_fade_alpha_at_midpoint() {
    let window_height = 800.0;
    let fade_height = 100.0;
    let fade_start = 700.0;
    let midpoint = fade_start + fade_height / 2.0;
    assert_f32_eq(alpha(midpoint, window_height, fade_height), 0.5, "Midpoint of fade should be 0.5 alpha");
}

#[test]
fn test_fade_alpha_linear_interpolation() {
    let window_height = 1000.0;
    let fade_height = 200.0;
    let fade_start = 800.0;

    let quarter = fade_start + fade_height / 4.0;
    assert_f32_eq(alpha(quarter, window_height, fade_height), 0.75, "25% into fade: alpha should be 0.75");

    let three_quarter = fade_start + (3.0 * fade_height / 4.0);
    assert_f32_eq(
        alpha(three_quarter, window_height, fade_height),
        0.25,
        "75% into fade: alpha should be 0.25",
    );
}

#[test]
fn test_fade_alpha_with_negative_y_position() {
    assert_f32_eq(alpha(-100.0, 800.0, 100.0), 1.0, "Negative y position should be fully opaque");
}

#[test]
fn test_fade_alpha_with_zero_fade_height() {
    assert_f32_eq(alpha(700.0, 800.0, 0.0), 1.0, "Below fade region (no fade): should be opaque");
    assert_f32_eq(alpha(800.0, 800.0, 0.0), 0.0, "At top with zero fade: should be transparent");
}

#[test]
fn test_fade_alpha_with_fade_covering_entire_window() {
    assert_f32_eq(alpha(0.0, 800.0, 800.0), 1.0, "Bottom should be opaque");
    assert_f32_eq(alpha(800.0, 800.0, 800.0), 0.0, "Top should be transparent");
}

#[test]
fn fade_alpha_scenario_window_700_fade_140() {
    assert_eq!(calculate_fade_alpha(px(100.0), px(700.0), px(140.0)), 1000);
    assert_eq!(calculate_fade_alpha(px(630.0), px(700.0), px(140.0)), 500);
    assert_eq!(calculate_fade_alpha(px(700.0), px(700.0), px(140.0)), 0);
}

#[test]
fn fade_alpha_rounds_down_within_the_ramp() {
    // One third of the way into a fade region of 3 px: two thirds opaque.
    assert_eq!(calculate_fade_alpha(px(98.0), px(100.0), px(3.0)), 666);
}

#[test]
fn fade_alpha_negative_fade_height_is_a_hard_edge() {
    assert_eq!(calculate_fade_alpha(px(99.0), px(100.0), px(-5.0)), 1000);
    assert_eq!(calculate_fade_alpha(px(100.0), px(100.0), px(-5.0)), 0);
}

#[test]
fn fade_alpha_extreme_values_do_not_overflow() {
    assert_eq!(calculate_fade_alpha(i64::MIN, i64::MAX, i64::MAX), 1000);
    assert_eq!(calculate_fade_alpha(i64::MAX - 1, i64::MAX, i64::MAX), 0);
}
