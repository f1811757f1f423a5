use bloop_shell::dimension::Dimension;
use bloop_shell::drag::{Axis, DragSession};
use bloop_shell::layout::{Panel, PanelLayout};

#[test]
fn apply_delta_stays_in_range_and_is_exact_inside() {
    let mut d = Dimension::new(320, 200, 600);
    assert_eq!(d.apply_delta(79, true), 399);
    assert_eq!(d.apply_delta(-199, true), 200);
    assert_eq!(d.apply_delta(-1, true), 200);
    assert_eq!(d.apply_delta(400, true), 600);
    assert_eq!(d.apply_delta(1, true), 600);
    assert_eq!(d.apply_delta(i64::MAX, true), 600);
    assert_eq!(d.apply_delta(i64::MIN, true), 200);
    assert_eq!(d.apply_delta(i64::MIN, false), 600);
    assert_eq!(d.value(), 600);
}

#[test]
fn new_dimension_clamps_its_start() {
    assert_eq!(Dimension::new(-7, 100, 500).value(), 100);
    assert_eq!(Dimension::new(9999, 100, 500).value(), 500);
    assert_eq!(Dimension::new(250, 100, 500).value(), 250);
    let d = Dimension::new(100, 100, 100);
    assert_eq!((d.min(), d.max(), d.value()), (100, 100, 100));
}

#[test]
fn sidebar_grows_to_its_cap() {
    let mut layout = PanelLayout::from_stored(None, None, None);
    assert_eq!(layout.get_value(Panel::Sidebar), 320);
    assert_eq!(layout.apply_delta(Panel::Sidebar, 50), 370);
    assert_eq!(layout.apply_delta(Panel::Sidebar, 50), 420);
    assert_eq!(layout.apply_delta(Panel::Sidebar, 50), 470);
    assert_eq!(layout.apply_delta(Panel::Sidebar, 1000), 600);
    assert_eq!(layout.get_value(Panel::Sidebar), 600);
}

#[test]
fn terminal_height_clamps_at_its_floor() {
    let mut layout = PanelLayout::from_stored(None, None, None);
    assert_eq!(layout.get_value(Panel::Terminal), 200);
    assert_eq!(layout.apply_delta(Panel::Terminal, -500), 100);
    assert_eq!(layout.get_value(Panel::Terminal), 100);
}

#[test]
fn assistant_grows_with_a_negative_delta() {
    let mut layout = PanelLayout::from_stored(None, None, None);
    assert_eq!(layout.get_value(Panel::Assistant), 480);
    assert_eq!(layout.apply_delta(Panel::Assistant, -100), 580);
    assert_eq!(layout.apply_delta(Panel::Assistant, 1000), 300);
    assert_eq!(layout.apply_delta(Panel::Assistant, -1000), 800);
    assert_eq!(layout.get_value(Panel::Sidebar), 320);
    assert_eq!(layout.get_value(Panel::Terminal), 200);
}

#[test]
fn stored_values_are_clamped_on_read() {
    let layout = PanelLayout::from_stored(Some(10_000), Some(-5), Some(250));
    assert_eq!(layout.get_value(Panel::Sidebar), 600);
    assert_eq!(layout.get_value(Panel::Assistant), 300);
    assert_eq!(layout.get_value(Panel::Terminal), 250);
}

#[test]
fn panel_constants() {
    assert_eq!(Panel::Sidebar.storage_key(), "bloop-sidebar-width");
    assert_eq!(Panel::Assistant.storage_key(), "bloop-assistant-width");
    assert_eq!(Panel::Terminal.storage_key(), "bloop-terminal-height");
    assert_eq!((Panel::Sidebar.min_value(), Panel::Sidebar.max_value()), (200, 600));
    assert_eq!((Panel::Assistant.min_value(), Panel::Assistant.max_value()), (300, 800));
    assert_eq!((Panel::Terminal.min_value(), Panel::Terminal.max_value()), (100, 500));
    assert_eq!(Panel::Assistant.default_value(), 480);
    assert!(!Panel::Assistant.grows_with_positive());
    assert!(Panel::Terminal.grows_with_positive());
    assert_eq!(Panel::Terminal.axis(), Axis::Vertical);
    assert_eq!(Panel::Sidebar.axis(), Axis::Horizontal);
}

#[test]
fn drag_session_deltas_are_incremental() {
    let mut s = DragSession::new(Axis::Horizontal);
    assert_eq!(s.pointer_move(10, 10), None);
    s.pointer_down(100, 7);
    assert!(s.is_active());
    assert_eq!(s.anchor(), 100);
    assert_eq!(s.pointer_move(130, 0), Some(30));
    assert_eq!(s.pointer_move(120, 0), Some(-10));
    s.pointer_up();
    assert!(!s.is_active());
    assert_eq!(s.pointer_move(500, 0), None);
}

#[test]
fn vertical_drag_reads_y() {
    let mut s = DragSession::new(Axis::Vertical);
    s.pointer_down(5, 40);
    assert_eq!(s.anchor(), 40);
    assert_eq!(s.pointer_move(999, 10), Some(-30));
    assert_eq!(s.pointer_move(i32::MIN, i32::MAX), Some(i32::MAX as i64 - 10));
}
