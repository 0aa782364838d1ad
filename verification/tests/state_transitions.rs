use whereismywindow::config::Config;
use whereismywindow::geometry::Rect;
use whereismywindow::state::{App, FocusState};

fn focus_on(hwnd: isize, monitor_index: usize) -> FocusState {
    FocusState {
        hwnd,
        title: String::from("window"),
        exe_name: String::from("app.exe"),
        window_rect: Rect { left: 0, top: 0, right: 100, bottom: 100 },
        monitor_index,
        monitor_name: String::from("display"),
        monitor_rect: Rect { left: 0, top: 0, right: 1920, bottom: 1080 },
    }
}

#[test]
fn monitor_change_signal_follows_index_changes() {
    // Window A on monitor 0, window B on monitor 0, window C on monitor 1.
    let mut app = App::new(Config::default());
    assert!(!app.update_focus(focus_on(1, 0)));
    assert!(!app.update_focus(focus_on(2, 0)));
    assert!(app.update_focus(focus_on(3, 1)));
    assert_eq!(app.prev_monitor_index, Some(1));
}

#[test]
fn first_focus_is_never_a_monitor_change() {
    let mut app = App::new(Config::default());
    assert_eq!(app.prev_monitor_index, None);
    assert!(!app.update_focus(focus_on(1, 5)));
    assert_eq!(app.prev_monitor_index, Some(5));
}

#[test]
fn focus_loss_preserves_previous_monitor() {
    let mut app = App::new(Config::default());
    app.update_focus(focus_on(1, 2));
    app.clear_focus();
    assert!(app.focus.is_none());
    assert_eq!(app.prev_monitor_index, Some(2));

    // The next focus gain compares against the pre-loss monitor.
    assert!(!app.update_focus(focus_on(2, 2)));

    app.clear_focus();
    assert!(app.update_focus(focus_on(3, 0)));
}

#[test]
fn same_monitor_across_different_windows_is_no_change() {
    let mut app = App::new(Config::default());
    app.update_focus(focus_on(10, 1));
    assert!(!app.update_focus(focus_on(20, 1)));
    assert!(!app.update_focus(focus_on(30, 1)));
}
