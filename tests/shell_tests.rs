use bloop_shell::layout::Panel;
use bloop_shell::shell::ShellState;
use bloop_shell::shortcuts::{match_shortcut, ShortcutAction};
use bloop_shell::types::ToastType;

fn shell() -> ShellState {
    ShellState::new(None, None, None)
}

#[test]
fn startup_state() {
    let s = shell();
    let f = s.flags();
    assert!(!f.command_palette_open && !f.sidebar_collapsed && !f.assistant_collapsed);
    assert!(!f.terminal_visible && !f.do_not_disturb && f.sound_enabled);
    assert_eq!(s.get_value(Panel::Sidebar), 320);
    assert_eq!(s.get_value(Panel::Assistant), 480);
    assert_eq!(s.get_value(Panel::Terminal), 200);
    assert_eq!(s.toasts().len(), 0);
    assert!(s.toasts_rendered());
    assert!(s.toast_sound());
}

#[test]
fn ctrl_k_opens_and_never_closes_the_palette() {
    let mut s = shell();
    assert!(s.handle_key(true, false, "k"));
    assert!(s.flags().command_palette_open);
    assert!(s.handle_key(true, false, "k"));
    assert!(s.flags().command_palette_open);
    assert!(s.handle_key(false, true, "k"));
    assert!(s.flags().command_palette_open);
    s.close_command_palette();
    assert!(!s.flags().command_palette_open);
}

#[test]
fn other_shortcuts() {
    let mut s = shell();
    assert!(s.handle_key(false, true, "b"));
    assert!(s.flags().sidebar_collapsed);
    assert!(s.handle_key(true, false, "b"));
    assert!(!s.flags().sidebar_collapsed);
    assert!(s.handle_key(true, false, "`"));
    assert!(s.flags().terminal_visible);
    assert!(s.handle_key(true, true, "`"));
    assert!(!s.flags().terminal_visible);
    assert!(s.handle_key(true, false, "s"));
    assert_eq!(s.toasts().len(), 1);
    let t = &s.toasts().toasts()[0];
    assert_eq!(t.toast_type, ToastType::Success);
    assert_eq!(t.message, "File saved successfully");
}

#[test]
fn keys_without_a_shortcut_change_nothing() {
    let mut s = shell();
    assert!(!s.handle_key(false, false, "k"));
    assert!(!s.handle_key(true, false, "K"));
    assert!(!s.handle_key(true, false, "x"));
    assert!(!s.handle_key(true, false, "kb"));
    assert!(!s.handle_key(true, false, ""));
    assert_eq!(s.flags(), shell().flags());
    assert_eq!(s.toasts().len(), 0);
}

#[test]
fn shortcut_table() {
    assert_eq!(match_shortcut(true, false, "k"), Some(ShortcutAction::OpenCommandPalette));
    assert_eq!(match_shortcut(false, true, "b"), Some(ShortcutAction::ToggleSidebar));
    assert_eq!(match_shortcut(true, false, "`"), Some(ShortcutAction::ToggleTerminal));
    assert_eq!(match_shortcut(false, true, "s"), Some(ShortcutAction::Save));
    assert_eq!(match_shortcut(false, false, "s"), None);
    assert_eq!(match_shortcut(true, false, "Control"), None);
}

#[test]
fn do_not_disturb_keeps_toasts_but_silences_them() {
    let mut s = shell();
    s.toggle_do_not_disturb();
    let id = s.show_toast(ToastType::Info, "hello".to_string()).unwrap();
    assert_eq!(s.toasts().len(), 1);
    assert_eq!(s.toasts().toasts()[0].id, id);
    assert!(!s.toasts_rendered());
    assert!(!s.toast_sound());
    s.toggle_do_not_disturb();
    assert!(s.toasts_rendered());
    s.toggle_sound();
    assert!(!s.toast_sound());
}

#[test]
fn shell_toast_push_and_remove() {
    let mut s = shell();
    let a = s.show_toast(ToastType::Success, "a".to_string()).unwrap();
    let b = s.show_toast(ToastType::Error, "b".to_string()).unwrap();
    let c = s.show_toast(ToastType::Info, "c".to_string()).unwrap();
    s.remove_toast(&b);
    s.remove_toast(&b);
    let left: Vec<String> = s.toasts().toasts().iter().map(|t| t.id.clone()).collect();
    assert_eq!(left, vec![a, c]);
}

#[test]
fn drag_resizes_until_pointer_up() {
    let mut s = shell();
    s.pointer_move(50, 50);
    assert_eq!(s.get_value(Panel::Sidebar), 320);
    s.pointer_down(Panel::Sidebar, 320, 0);
    assert!(s.is_dragging(Panel::Sidebar));
    s.pointer_move(350, 0);
    s.pointer_move(370, 999);
    assert_eq!(s.get_value(Panel::Sidebar), 370);
    assert_eq!(s.get_value(Panel::Assistant), 480);
    s.pointer_up();
    assert!(!s.is_dragging(Panel::Sidebar));
    s.pointer_move(600, 0);
    assert_eq!(s.get_value(Panel::Sidebar), 370);
}

#[test]
fn chunked_and_coalesced_moves_agree() {
    let mut chunked = shell();
    chunked.pointer_down(Panel::Assistant, 1000, 0);
    for x in [990, 975, 960, 940] {
        chunked.pointer_move(x, 0);
    }
    chunked.pointer_up();
    let mut whole = shell();
    whole.pointer_down(Panel::Assistant, 1000, 0);
    whole.pointer_move(940, 0);
    whole.pointer_up();
    assert_eq!(chunked.get_value(Panel::Assistant), 540);
    assert_eq!(whole.get_value(Panel::Assistant), 540);
}

#[test]
fn one_way_drag_past_the_cap_agrees_with_one_move() {
    let mut chunked = shell();
    chunked.toggle_terminal();
    chunked.pointer_down(Panel::Terminal, 0, 100);
    for y in [300, 500, 700] {
        chunked.pointer_move(0, y);
    }
    let mut whole = shell();
    whole.toggle_terminal();
    whole.pointer_down(Panel::Terminal, 0, 100);
    whole.pointer_move(0, 700);
    assert_eq!(chunked.get_value(Panel::Terminal), 500);
    assert_eq!(whole.get_value(Panel::Terminal), 500);
}

#[test]
fn clamped_move_is_not_replayed() {
    let mut s = shell();
    s.pointer_down(Panel::Sidebar, 0, 0);
    s.pointer_move(400, 0);
    assert_eq!(s.get_value(Panel::Sidebar), 600);
    s.pointer_move(380, 0);
    assert_eq!(s.get_value(Panel::Sidebar), 580);
}

#[test]
fn hiding_a_panel_ends_its_drag() {
    let mut s = shell();
    s.pointer_down(Panel::Terminal, 0, 10);
    assert!(!s.is_dragging(Panel::Terminal));
    s.toggle_terminal();
    s.pointer_down(Panel::Terminal, 0, 10);
    assert!(s.is_dragging(Panel::Terminal));
    s.close_terminal();
    assert!(!s.is_dragging(Panel::Terminal));
    s.pointer_move(0, 300);
    assert_eq!(s.get_value(Panel::Terminal), 200);

    s.pointer_down(Panel::Sidebar, 0, 0);
    s.collapse_sidebar();
    assert!(!s.is_dragging(Panel::Sidebar));
    s.pointer_down(Panel::Assistant, 0, 0);
    s.collapse_assistant();
    assert!(!s.is_dragging(Panel::Assistant));
    s.pointer_move(100, 100);
    assert_eq!(s.get_value(Panel::Sidebar), 320);
    assert_eq!(s.get_value(Panel::Assistant), 480);
}

#[test]
fn startup_uses_stored_values_clamped() {
    let s = ShellState::new(Some(250), Some(2000), None);
    assert_eq!(s.get_value(Panel::Sidebar), 250);
    assert_eq!(s.get_value(Panel::Assistant), 800);
    assert_eq!(s.get_value(Panel::Terminal), 200);
    assert_eq!(s.layout().get_value(Panel::Sidebar), 250);
}
