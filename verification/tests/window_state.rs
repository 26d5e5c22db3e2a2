use discord_rpc::window_state::{Builder, RestorePlan, WindowMetadata};

fn record() -> WindowMetadata {
    WindowMetadata { width: 1000, height: 800, x: 40, y: 60, maximized: false, visible: true }
}

#[test]
fn default_record_is_all_zero_and_hidden() {
    assert_eq!(
        WindowMetadata::default(),
        WindowMetadata { width: 0, height: 0, x: 0, y: 0, maximized: false, visible: false }
    );
}

#[test]
fn moved_takes_a_position_inside_the_monitor() {
    let after = record().moved(100, 200, Some((0, 0)), false);
    assert_eq!(after, WindowMetadata { x: 100, y: 200, ..record() });
}

#[test]
fn moved_keeps_the_position_on_the_edge_or_outside_the_monitor() {
    assert_eq!(record().moved(0, 200, Some((0, 0)), false), record());
    assert_eq!(record().moved(100, 0, Some((0, 0)), false), record());
    assert_eq!(record().moved(-5, -5, Some((0, 0)), false), record());
    assert_eq!(record().moved(1920, 10, Some((1920, 0)), false), record());
    assert_eq!(
        record().moved(1921, 1, Some((1920, 0)), false),
        WindowMetadata { x: 1921, y: 1, ..record() }
    );
}

#[test]
fn moved_keeps_the_position_without_a_monitor() {
    assert_eq!(record().moved(100, 200, None, false), record());
}

#[test]
fn moved_keeps_the_position_of_a_maximized_window() {
    let after = record().moved(100, 200, Some((0, 0)), true);
    assert_eq!(after, WindowMetadata { maximized: true, ..record() });
    let back = after.moved(1, 1, None, false);
    assert_eq!(back, record());
}

#[test]
fn resized_takes_a_size_that_is_not_empty() {
    let after = record().resized(640, 480, false);
    assert_eq!(after, WindowMetadata { width: 640, height: 480, ..record() });
    assert_eq!(record().resized(1, 1, false), WindowMetadata { width: 1, height: 1, ..record() });
}

#[test]
fn resized_keeps_the_size_when_a_side_is_zero() {
    assert_eq!(record().resized(0, 480, false), record());
    assert_eq!(record().resized(640, 0, false), record());
    assert_eq!(record().resized(0, 0, false), record());
}

#[test]
fn resized_keeps_the_size_of_a_maximized_window() {
    assert_eq!(record().resized(1920, 1080, true), WindowMetadata { maximized: true, ..record() });
}

#[test]
fn close_requested_remembers_visibility() {
    assert_eq!(record().close_requested(Some(false)), WindowMetadata { visible: false, ..record() });
    assert_eq!(record().close_requested(Some(true)), record());
    let hidden = WindowMetadata { visible: false, ..record() };
    assert_eq!(hidden.close_requested(None), record());
}

#[test]
fn restore_follows_the_record() {
    let saved = WindowMetadata { width: 300, height: 200, x: -10, y: 20, maximized: true, visible: false };
    assert_eq!(
        WindowMetadata::restore(Some(saved), record()),
        RestorePlan {
            position: Some((-10, 20)),
            size: Some((300, 200)),
            maximize: true,
            show: false,
            record: None,
        }
    );
}

#[test]
fn restore_without_a_record_shows_the_window_and_starts_one() {
    assert_eq!(
        WindowMetadata::restore(None, record()),
        RestorePlan { position: None, size: None, maximize: false, show: true, record: Some(record()) }
    );
}

#[test]
fn observed_fills_in_the_defaults() {
    assert_eq!(
        WindowMetadata::observed((10, 20), (30, 40), None, None),
        WindowMetadata { width: 10, height: 20, x: 30, y: 40, maximized: false, visible: true }
    );
    assert_eq!(
        WindowMetadata::observed((10, 20), (30, 40), Some(true), Some(false)),
        WindowMetadata { width: 10, height: 20, x: 30, y: 40, maximized: true, visible: false }
    );
}

#[test]
fn builder_restores_unless_told_to_skip() {
    assert!(Builder::default().restores_on_create());
    assert!(!Builder::default().skip_check_on_window_create().restores_on_create());
    assert!(!Builder::default().skip_check_on_window_create().skip_check_on_window_create().restores_on_create());
}
