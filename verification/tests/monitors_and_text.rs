use whereismywindow::focus::{is_shell_exe, is_shell_window};
use whereismywindow::geometry::Rect;
use whereismywindow::monitor::{monitor_full_rects, monitor_work_rects, sort_monitors, MonitorInfo};
use whereismywindow::text::{format_monitor, i64_to_string, trim_trailing_nul, u64_to_string};

fn rect(left: i32, top: i32, right: i32, bottom: i32) -> Rect {
    Rect { left, top, right, bottom }
}

fn monitor(name: &str, full: Rect) -> MonitorInfo {
    MonitorInfo {
        handle: 1,
        name: String::from(name),
        work_rect: full,
        full_rect: full,
        is_primary: false,
    }
}

#[test]
fn monitors_sort_by_left_edge() {
    let unsorted = vec![
        monitor("C", rect(1920, 0, 3840, 1080)),
        monitor("A", rect(-1920, 0, 0, 1080)),
        monitor("B", rect(0, 0, 1920, 1080)),
    ];
    let sorted = sort_monitors(unsorted);
    let names: Vec<&str> = sorted.iter().map(|m| m.name.as_str()).collect();
    assert_eq!(names, vec!["A", "B", "C"]);
    assert_eq!(sorted[0].full_rect.left, -1920);
    assert_eq!(sorted[2].full_rect.left, 1920);
}

#[test]
fn sorting_keeps_every_monitor() {
    let input = vec![
        monitor("X", rect(5, 0, 10, 10)),
        monitor("Y", rect(5, 0, 10, 10)),
        monitor("Z", rect(0, 0, 5, 10)),
    ];
    let sorted = sort_monitors(input);
    assert_eq!(sorted.len(), 3);
    let mut names: Vec<&str> = sorted.iter().map(|m| m.name.as_str()).collect();
    names.sort();
    assert_eq!(names, vec!["X", "Y", "Z"]);
    assert_eq!(sorted[0].name, "Z");
}

#[test]
fn rect_projections_follow_monitor_order() {
    let mons = vec![
        MonitorInfo {
            handle: 1,
            name: String::from("A"),
            work_rect: rect(0, 0, 1920, 1040),
            full_rect: rect(0, 0, 1920, 1080),
            is_primary: true,
        },
        MonitorInfo {
            handle: 2,
            name: String::from("B"),
            work_rect: rect(1920, 0, 3840, 1040),
            full_rect: rect(1920, 0, 3840, 1080),
            is_primary: false,
        },
    ];
    assert_eq!(monitor_full_rects(&mons), vec![rect(0, 0, 1920, 1080), rect(1920, 0, 3840, 1080)]);
    assert_eq!(monitor_work_rects(&mons), vec![rect(0, 0, 1920, 1040), rect(1920, 0, 3840, 1040)]);
}

#[test]
fn shell_filter_matches_untitled_explorer_windows() {
    assert!(is_shell_window("", "explorer.exe"));
    assert!(is_shell_window("", "EXPLORER.EXE"));
    assert!(is_shell_window("", "Explorer.Exe"));
    assert!(!is_shell_window("Documents", "explorer.exe"));
    assert!(!is_shell_window("", "editor.exe"));
    assert!(!is_shell_window("", "explorer.ex"));
    assert!(!is_shell_window("", "explorer2exe"));
    assert!(is_shell_exe("eXpLoReR.eXe"));
    assert!(!is_shell_exe("explorer.exee"));
}

#[test]
fn decimal_formatting() {
    assert_eq!(u64_to_string(0), "0");
    assert_eq!(u64_to_string(7), "7");
    assert_eq!(u64_to_string(10), "10");
    assert_eq!(u64_to_string(1080), "1080");
    assert_eq!(u64_to_string(18446744073709551615), "18446744073709551615");
    assert_eq!(i64_to_string(-1920), "-1920");
    assert_eq!(i64_to_string(0), "0");
    assert_eq!(i64_to_string(42), "42");
}

#[test]
fn device_names_lose_their_nul_padding() {
    assert_eq!(trim_trailing_nul("DISPLAY1\0\0\0"), "DISPLAY1");
    assert_eq!(trim_trailing_nul("DISPLAY1"), "DISPLAY1");
    assert_eq!(trim_trailing_nul("\0\0"), "");
    assert_eq!(trim_trailing_nul(""), "");
    assert_eq!(trim_trailing_nul("a\0b\0"), "a\0b");
}

#[test]
fn monitor_description_line() {
    let m = MonitorInfo {
        handle: 3,
        name: String::from("DISPLAY2\0\0"),
        work_rect: rect(1920, 0, 3840, 1040),
        full_rect: rect(1920, 0, 3840, 1080),
        is_primary: false,
    };
    assert_eq!(format_monitor(&m, 1), "Monitor 2 (DISPLAY2) 1920x1080 @ (1920,0)");

    let left = MonitorInfo {
        handle: 4,
        name: String::from("DISPLAY3"),
        work_rect: rect(-1920, 0, 0, 1040),
        full_rect: rect(-1920, 0, 0, 1080),
        is_primary: false,
    };
    assert_eq!(format_monitor(&left, 2), "Monitor 3 (DISPLAY3) 1920x1080 @ (-1920,0)");
}
