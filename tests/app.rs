use key_overlay_rs::app::{DoubleTap, Orchestrator, DOUBLE_ESCAPE_INTERVAL};
use key_overlay_rs::renderer::Renderer;
use key_overlay_rs::types::{AppConfig, InputEvent, KeyConfig, Color};

fn press(k: &str) -> InputEvent {
    InputEvent::KeyPress(k.to_string())
}

fn release(k: &str) -> InputEvent {
    InputEvent::KeyRelease(k.to_string())
}

fn orchestrator() -> Orchestrator {
    Orchestrator::new(Renderer::new(AppConfig::default()))
}

#[test]
fn double_escape_within_interval_closes() {
    let mut app = orchestrator();
    assert!(!app.process_input_events(vec![press("Escape"), release("Escape")], true, 1_000_000));
    assert!(app.process_input_events(vec![press("Escape")], true, 1_000_000 + DOUBLE_ESCAPE_INTERVAL));
}

#[test]
fn single_escape_does_not_close() {
    let mut app = orchestrator();
    assert!(!app.process_input_events(vec![press("Escape"), release("Escape")], true, 0));
}

#[test]
fn slow_double_escape_rearms_instead_of_closing() {
    let mut app = orchestrator();
    assert!(!app.process_input_events(vec![press("Escape"), release("Escape")], true, 0));
    assert!(!app.process_input_events(vec![press("Escape"), release("Escape")], true, DOUBLE_ESCAPE_INTERVAL + 1));
    assert_eq!(app.escape.armed_at, Some(DOUBLE_ESCAPE_INTERVAL + 1));
    assert!(app.process_input_events(vec![press("Escape")], true, DOUBLE_ESCAPE_INTERVAL + 2));
}

#[test]
fn held_escape_repeat_is_not_a_second_press() {
    let mut app = orchestrator();
    assert!(!app.process_input_events(vec![press("Escape"), press("Escape")], true, 10));
}

#[test]
fn escape_needs_focus() {
    let mut app = orchestrator();
    assert!(!app.process_input_events(vec![press("Escape"), release("Escape"), press("Escape")], false, 10));
}

#[test]
fn double_tap_detector_states() {
    let mut tap = DoubleTap::new();
    assert!(!tap.should_close_on_press(100));
    assert_eq!(tap, DoubleTap { key_down: true, armed_at: Some(100) });
    tap.on_release();
    assert_eq!(tap, DoubleTap { key_down: false, armed_at: Some(100) });
    assert!(tap.should_close_on_press(200));
    assert_eq!(tap, DoubleTap { key_down: true, armed_at: None });
}

#[test]
fn configuration_is_applied_before_input() {
    let mut app = orchestrator();
    let config = AppConfig {
        keys: vec![KeyConfig {
            key_name: "Q".to_string(),
            display_name: "Q".to_string(),
            color: Color::from_rgba_u8(1, 2, 3, 4),
            size: 1000,
        }],
        ..AppConfig::default()
    };
    let close = app.process_frame(vec![AppConfig::default(), config], vec![press("Q"), press("Z")], true, false, 0);
    assert!(!close);
    assert_eq!(app.renderer.config().keys[0].key_name, "Q");
    assert!(app.renderer.bar_manager.column("Q").is_some());
    assert!(app.renderer.bar_manager.column("Z").is_none());
}

#[test]
fn shutdown_request_closes() {
    let mut app = orchestrator();
    assert!(app.process_frame(vec![], vec![], false, true, 0));
}

#[test]
fn mouse_events_drive_bars() {
    let mut app = orchestrator();
    let config = AppConfig {
        keys: vec![KeyConfig {
            key_name: "Mouse1".to_string(),
            display_name: "M1".to_string(),
            color: Color::black(),
            size: 1000,
        }],
        ..AppConfig::default()
    };
    app.process_config_updates(vec![config]);
    app.process_input_events(
        vec![InputEvent::MousePress("Mouse1".to_string()), InputEvent::MouseRelease("Mouse1".to_string())],
        true,
        0,
    );
    let column = app.renderer.bar_manager.column("Mouse1").unwrap();
    assert_eq!(column.press_count, 1);
    assert!(!column.is_held);
}

#[test]
fn scenario_press_release_press_through_the_frame_loop() {
    let mut app = orchestrator();
    app.process_input_events(vec![press("Z"), release("Z"), press("Z")], true, 0);
    assert_eq!(app.renderer.bar_manager.column_count(), 1);
    assert_eq!(app.renderer.bar_manager.column("Z").unwrap().press_count, 2);
}
