use whereismywindow::color::{scale_channel, Color, COLOR_SCALE};
use whereismywindow::command::{apply_command, CommandEffect, TrayCommand};
use whereismywindow::config::{
    border_style_to_index, index_to_border_style, on_off, BorderStyle, Config,
};
use whereismywindow::flash::FlashOverlay;
use whereismywindow::geometry::Rect;
use whereismywindow::indicator::{
    badge_fill_color, badge_label, badge_rect, MonitorIndicators, BADGE_HEIGHT, BADGE_MARGIN,
    BADGE_WIDTH,
};

fn rect(left: i32, top: i32, right: i32, bottom: i32) -> Rect {
    Rect { left, top, right, bottom }
}

#[test]
fn default_config_values() {
    let c = Config::default();
    assert!(c.border_enabled);
    assert!(!c.flash_enabled);
    assert!(c.indicator_enabled);
    assert_eq!(c.border_color, Color { r: 0, g: 4700, b: 8400, a: 9000 });
    assert_eq!(c.border_thickness, 4);
    assert_eq!(c.border_style, BorderStyle::Solid);
    assert_eq!(c.flash_duration_ms, 150);
    assert_eq!(c.flash_opacity, 2500);
    assert!(c.reveal_hotkey_enabled);
    assert_eq!(c.poll_interval_ms, 16);
}

#[test]
fn border_style_cycles_between_the_two_styles() {
    assert_eq!(BorderStyle::Solid.next(), BorderStyle::Glow);
    assert_eq!(BorderStyle::Glow.next(), BorderStyle::Solid);
    assert_eq!(BorderStyle::Solid.next().next(), BorderStyle::Solid);
}

#[test]
fn border_style_labels_and_indices() {
    assert_eq!(BorderStyle::Solid.label(), "Solid");
    assert_eq!(BorderStyle::Glow.label(), "Glow");
    assert_eq!(border_style_to_index(BorderStyle::Solid), 0);
    assert_eq!(border_style_to_index(BorderStyle::Glow), 1);
    assert_eq!(index_to_border_style(0), BorderStyle::Solid);
    assert_eq!(index_to_border_style(1), BorderStyle::Glow);
    assert_eq!(index_to_border_style(7), BorderStyle::Glow);
    assert_eq!(on_off(true), "ON");
    assert_eq!(on_off(false), "OFF");
}

#[test]
fn channel_scaling_is_exact() {
    assert_eq!(scale_channel(8400, 15), 1260);
    assert_eq!(scale_channel(8400, 35), 2940);
    assert_eq!(scale_channel(8400, 65), 5460);
    assert_eq!(scale_channel(8400, 100), 8400);
    assert_eq!(scale_channel(0, 50), 0);
    assert_eq!(scale_channel(COLOR_SCALE, 100), COLOR_SCALE);
}

#[test]
fn flash_retrigger_replaces_pending_timer() {
    let mut f = FlashOverlay::new(2500);
    let first = f.flash(&rect(0, 0, 1920, 1080), 150);
    assert!(!first.replaced_pending);
    assert_eq!(first.rect, rect(0, 0, 1920, 1080));
    assert_eq!(first.duration_ms, 150);
    assert!(f.timer_armed);

    // Re-trigger before expiry: the pending timer must be replaced.
    let second = f.flash(&rect(1920, 0, 3840, 1080), 150);
    assert!(second.replaced_pending);
    assert!(f.timer_armed);

    f.on_timer_expired();
    assert!(!f.timer_armed);
    let third = f.flash(&rect(0, 0, 1920, 1080), 200);
    assert!(!third.replaced_pending);
}

#[test]
fn flash_fill_is_semi_opaque_blue() {
    let f = FlashOverlay::new(2500);
    assert_eq!(f.fill_color(), Color { r: 0, g: 4700, b: 8400, a: 2500 });
}

#[test]
fn badge_rect_anchors_at_work_area_bottom_left() {
    let work = rect(0, 0, 1920, 1040);
    let b = badge_rect(&work);
    assert_eq!(b, rect(12, 992, 60, 1028));
    assert_eq!(b.right - b.left, BADGE_WIDTH);
    assert_eq!(b.bottom - b.top, BADGE_HEIGHT);
    assert_eq!(b.left - work.left, BADGE_MARGIN);
    assert_eq!(work.bottom - b.bottom, BADGE_MARGIN);
}

#[test]
fn badges_track_the_active_monitor() {
    let mut ind = MonitorIndicators::new(3);
    assert_eq!(ind.badges.len(), 3);
    assert!(ind.badges.iter().all(|b| !b.is_active));

    ind.set_active(1);
    let active: Vec<bool> = ind.badges.iter().map(|b| b.is_active).collect();
    assert_eq!(active, vec![false, true, false]);

    ind.set_active(2);
    let active: Vec<bool> = ind.badges.iter().map(|b| b.is_active).collect();
    assert_eq!(active, vec![false, false, true]);

    // An out-of-range index leaves every badge inactive.
    ind.set_active(9);
    assert!(ind.badges.iter().all(|b| !b.is_active));
}

#[test]
fn badge_labels_are_one_based() {
    assert_eq!(badge_label(0), "1");
    assert_eq!(badge_label(1), "2");
    assert_eq!(badge_label(11), "12");
}

#[test]
fn badge_colors_distinguish_the_active_monitor() {
    assert_eq!(badge_fill_color(true), Color { r: 0, g: 4700, b: 8400, a: 10000 });
    assert_eq!(badge_fill_color(false), Color { r: 3500, g: 3500, b: 3500, a: 10000 });
}

#[test]
fn tray_commands_toggle_their_flags() {
    let mut c = Config::default();
    assert_eq!(
        apply_command(&mut c, TrayCommand::ToggleBorder),
        CommandEffect::BorderToggled { enabled: false }
    );
    assert!(!c.border_enabled);
    assert_eq!(
        apply_command(&mut c, TrayCommand::ToggleBorder),
        CommandEffect::BorderToggled { enabled: true }
    );
    assert!(c.border_enabled);

    assert_eq!(
        apply_command(&mut c, TrayCommand::ToggleFlash),
        CommandEffect::FlashToggled { enabled: true }
    );
    assert!(c.flash_enabled);

    assert_eq!(
        apply_command(&mut c, TrayCommand::ToggleIndicator),
        CommandEffect::IndicatorToggled { enabled: false }
    );
    assert!(!c.indicator_enabled);
}

#[test]
fn cycle_style_command_advances_the_style() {
    let mut c = Config::default();
    assert_eq!(
        apply_command(&mut c, TrayCommand::CycleBorderStyle),
        CommandEffect::StyleChanged { style: BorderStyle::Glow }
    );
    assert_eq!(c.border_style, BorderStyle::Glow);
    assert_eq!(
        apply_command(&mut c, TrayCommand::CycleBorderStyle),
        CommandEffect::StyleChanged { style: BorderStyle::Solid }
    );
    assert_eq!(c.border_style, BorderStyle::Solid);
}

#[test]
fn settings_and_quit_commands_leave_config_unchanged() {
    let mut c = Config::default();
    let before = c;
    assert_eq!(apply_command(&mut c, TrayCommand::OpenSettings), CommandEffect::OpenSettingsRequested);
    assert_eq!(apply_command(&mut c, TrayCommand::Quit), CommandEffect::QuitRequested);
    assert_eq!(c, before);
}
