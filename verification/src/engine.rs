//! The focus-update engine: the decisions taken once per detected change
//! (and once at startup).  Given the fresh snapshot of the foreground
//! window, the engine filters out shell popups and the engine's own
//! overlay surfaces, resolves the owning monitor, replaces the application
//! state, and says which overlay updates the caller must perform.  The
//! caller queries the operating system and executes the returned
//! directives; every decision in between is made here.

use vstd::prelude::*;

use crate::focus::{spec_shell_popup, is_shell_window, WindowSnapshot};
use crate::geometry::{
    best_monitor_index, clamp_to_monitor, spec_best_monitor_index, spec_clamp, Rect,
};
use crate::monitor::{monitor_full_rects, MonitorInfo};
use crate::state::{spec_clear_focus, App, FocusState};

verus! {

/// The window handles of the engine's own overlay surfaces.  A focus
/// change onto one of these must be ignored, or the engine would track
/// and outline its own decoration.
pub struct OverlayHandles {
    pub border: Option<isize>,
    pub flash: Option<isize>,
    pub indicators: Vec<isize>,
}

/// `h` is the handle of one of the engine's own overlay surfaces.
pub open spec fn spec_is_own_overlay(h: isize, ov: OverlayHandles) -> bool {
    ov.border == Some(h) || ov.flash == Some(h) || ov.indicators@.contains(h)
}

/// A snapshot the engine treats as "no focus": the query failed, the
/// window is not visible, or it is a transient shell popup.
pub open spec fn spec_snapshot_rejected(s: Option<WindowSnapshot>) -> bool {
    match s {
        None => true,
        Some(w) => !w.is_visible || spec_shell_popup(w),
    }
}

/// Whether moving to monitor `mi` counts as a monitor change, judged
/// against the monitor of the previous non-empty focus state.
pub open spec fn spec_monitor_changed(prev: Option<usize>, mi: usize) -> bool {
    match prev {
        Some(p) => p != mi,
        None => false,
    }
}

/// A request to flash the destination monitor for a limited time.
#[derive(Clone, Copy, PartialEq, Eq, Debug)]
pub struct FlashRequest {
    pub monitor_rect: Rect,
    pub duration_ms: u32,
}

/// What the caller must do after a focus update.
#[derive(Clone, PartialEq, Eq, Debug)]
pub enum FocusUpdateOutcome {
    /// Focus went to the desktop, the taskbar, a minimized window or a
    /// shell popup: the border must be hidden immediately so it does not
    /// linger on a stale position.
    FocusLost,
    /// The "focused" window is one of the engine's own overlay surfaces;
    /// nothing changes.
    IgnoredOwnOverlay,
    /// A real window has focus: reposition the border to `border_target`
    /// (when the border is enabled), mark badge `indicator_active` active
    /// (when badges are enabled), and flash the destination monitor (only
    /// on a monitor change with flashing enabled).
    Applied {
        monitor_changed: bool,
        border_target: Option<Rect>,
        indicator_active: Option<usize>,
        flash: Option<FlashRequest>,
    },
}

/// The monitor index the engine resolves for a window rectangle: the
/// best-overlap monitor, or the index-0 sentinel when no monitors are
/// known.
pub open spec fn spec_resolved_monitor(rect: Rect, mons: Seq<MonitorInfo>) -> int {
    if mons.len() == 0 {
        0
    } else {
        spec_best_monitor_index(rect, mons.map_values(|m: MonitorInfo| m.full_rect))
    }
}

/// Whether a handle occurs in a list of overlay-surface handles.
fn contains_handle(v: &Vec<isize>, h: isize) -> (r: bool)
    ensures
        r == v@.contains(h),
{
    let mut i: usize = 0;
    while i < v.len()
        invariant
            i as int <= v@.len(),
            forall|j: int| 0 <= j < i as int ==> v@[j] != h,
        decreases v@.len() - i as int,
    {
        if v[i] == h {
            proof {
                assert(v@.contains(h)) by {
                    assert(v@[i as int] == h);
                }
            }
            return true;
        }
        i = i + 1;
    }
    false
}

/// Run one focus update against the current state.
///
/// `snapshot` is the fresh foreground-window snapshot (or `None` when the
/// query failed), and `overlays` holds the engine's own surface handles.
/// The returned outcome is the complete list of overlay updates the caller
/// must perform; the state is replaced as the outcome says.
pub fn update_focus_state(app: &mut App, snapshot: Option<WindowSnapshot>, overlays: &OverlayHandles) -> (r:
    FocusUpdateOutcome)
    ensures
        spec_snapshot_rejected(snapshot) ==> r == FocusUpdateOutcome::FocusLost && *final(app)
            == spec_clear_focus(*old(app)),
        (!spec_snapshot_rejected(snapshot) && spec_is_own_overlay(
            snapshot->Some_0.hwnd,
            *overlays,
        )) ==> r == FocusUpdateOutcome::IgnoredOwnOverlay && *final(app) == *old(app),
        (!spec_snapshot_rejected(snapshot) && !spec_is_own_overlay(
            snapshot->Some_0.hwnd,
            *overlays,
        )) ==> ({
            let w = snapshot->Some_0;
            let mons = old(app).monitors@;
            let mi = spec_resolved_monitor(w.rect, mons);
            let mrect = if mi < mons.len() {
                mons[mi].full_rect
            } else {
                Rect { left: 0, top: 0, right: 0, bottom: 0 }
            };
            let mname = if mi < mons.len() {
                mons[mi].name@
            } else {
                Seq::<char>::empty()
            };
            let changed = spec_monitor_changed(old(app).prev_monitor_index, mi as usize);
            // The resolved index is valid whenever any monitor is known;
            // with none, 0 stands as the sentinel the callers must guard.
            &&& mons.len() > 0 ==> 0 <= mi < mons.len()
            &&& mons.len() == 0 ==> mi == 0
            &&& final(app).config == old(app).config
            &&& final(app).monitors == old(app).monitors
            &&& final(app).prev_monitor_index == Some(mi as usize)
            &&& final(app).focus matches Some(f) && {
                &&& f.hwnd == w.hwnd
                &&& f.title == w.title
                &&& f.exe_name == w.exe_name
                &&& f.window_rect == w.rect
                &&& f.monitor_index as int == mi
                &&& f.monitor_name@ == mname
                &&& f.monitor_rect == mrect
            }
            &&& r matches FocusUpdateOutcome::Applied {
                monitor_changed,
                border_target,
                indicator_active,
                flash,
            } && {
                &&& monitor_changed == changed
                &&& border_target == if old(app).config.border_enabled {
                    Some(spec_clamp(w.rect, mrect))
                } else {
                    Option::<Rect>::None
                }
                &&& indicator_active == if old(app).config.indicator_enabled {
                    Some(mi as usize)
                } else {
                    Option::<usize>::None
                }
                &&& flash == if changed && old(app).config.flash_enabled {
                    Some(
                        FlashRequest {
                            monitor_rect: mrect,
                            duration_ms: old(app).config.flash_duration_ms,
                        },
                    )
                } else {
                    Option::<FlashRequest>::None
                }
            }
        }),
{
    let w = match snapshot {
        None => {
            app.clear_focus();
            return FocusUpdateOutcome::FocusLost;
        },
        Some(w) => w,
    };
    if !w.is_visible || is_shell_window(w.title.as_str(), w.exe_name.as_str()) {
        app.clear_focus();
        return FocusUpdateOutcome::FocusLost;
    }
    // Skip the engine's own overlay surfaces.
    let own_border: bool = match overlays.border {
        Some(b) => w.hwnd == b,
        None => false,
    };
    let own_flash: bool = match overlays.flash {
        Some(fl) => w.hwnd == fl,
        None => false,
    };
    if own_border || own_flash || contains_handle(&overlays.indicators, w.hwnd) {
        return FocusUpdateOutcome::IgnoredOwnOverlay;
    }
    // Resolve the owning monitor against the full rectangles.
    let ghost mons = app.monitors@;
    let (mi, mname, mrect): (usize, String, Rect) = if app.monitors.len() == 0 {
        (0, String::new(), Rect::zero())
    } else {
        let full = monitor_full_rects(&app.monitors);
        proof {
            assert(full@ =~= mons.map_values(|m: MonitorInfo| m.full_rect));
        }
        let mi = best_monitor_index(&w.rect, full.as_slice());
        (mi, app.monitors[mi].name.clone(), app.monitors[mi].full_rect)
    };
    let rect = w.rect;
    let hwnd = w.hwnd;
    let f = FocusState {
        hwnd,
        title: w.title,
        exe_name: w.exe_name,
        window_rect: rect,
        monitor_index: mi,
        monitor_name: mname,
        monitor_rect: mrect,
    };
    let monitor_changed = app.update_focus(f);
    let border_target: Option<Rect> = if app.config.border_enabled {
        Some(clamp_to_monitor(&rect, &mrect))
    } else {
        None
    };
    let indicator_active: Option<usize> = if app.config.indicator_enabled {
        Some(mi)
    } else {
        None
    };
    let flash: Option<FlashRequest> = if monitor_changed && app.config.flash_enabled {
        Some(FlashRequest { monitor_rect: mrect, duration_ms: app.config.flash_duration_ms })
    } else {
        None
    };
    FocusUpdateOutcome::Applied { monitor_changed, border_target, indicator_active, flash }
}

/// What the tracking loop must do with the border on a window-geometry
/// notification or a poll tick.
#[derive(Clone, Copy, PartialEq, Eq, Debug)]
pub enum TrackingAction {
    /// Nothing to do.
    Ignore,
    /// Reposition the border around this rectangle.
    RepositionBorder(Rect),
    /// The foreground moved away from the tracked window: hide the border
    /// until the next focus update replaces it.
    HideBorder,
}

/// Decide the reaction to a window-geometry-changed notification.
///
/// `fg_hwnd` is the current foreground window and `bounds` its freshly
/// queried extended frame bounds, if that query succeeded.  A notification
/// for a window that is no longer the tracked one is ignored (stale-event
/// guard via handle comparison).
pub fn on_location_changed(app: &App, fg_hwnd: isize, bounds: Option<Rect>) -> (r: TrackingAction)
    ensures
        !app.config.border_enabled ==> r == TrackingAction::Ignore,
        app.focus is None ==> r == TrackingAction::Ignore,
        app.focus matches Some(f) ==> (app.config.border_enabled ==> ({
            &&& fg_hwnd != f.hwnd ==> r == TrackingAction::Ignore
            &&& (fg_hwnd == f.hwnd && bounds is None) ==> r == TrackingAction::Ignore
            &&& fg_hwnd == f.hwnd ==> (bounds matches Some(b) ==> r
                == TrackingAction::RepositionBorder(spec_clamp(b, f.monitor_rect)))
        })),
{
    if !app.config.border_enabled {
        return TrackingAction::Ignore;
    }
    match &app.focus {
        None => TrackingAction::Ignore,
        Some(focus) => {
            if fg_hwnd != focus.hwnd {
                return TrackingAction::Ignore;
            }
            match bounds {
                None => TrackingAction::Ignore,
                Some(b) => TrackingAction::RepositionBorder(
                    clamp_to_monitor(&b, &focus.monitor_rect),
                ),
            }
        },
    }
}

/// Decide the reaction to a poll-timer tick.
///
/// The poll re-checks the tracked window's geometry independently of push
/// notifications, so tracking converges even when a notification was
/// dropped.  Unlike a notification, a tick that finds the foreground moved
/// away hides the border, and a tick that finds the geometry unchanged
/// does nothing.
pub fn on_poll_tick(app: &App, fg_hwnd: isize, bounds: Option<Rect>) -> (r: TrackingAction)
    ensures
        !app.config.border_enabled ==> r == TrackingAction::Ignore,
        app.focus is None ==> r == TrackingAction::Ignore,
        app.focus matches Some(f) ==> (app.config.border_enabled ==> ({
            &&& fg_hwnd != f.hwnd ==> r == TrackingAction::HideBorder
            &&& (fg_hwnd == f.hwnd && bounds is None) ==> r == TrackingAction::Ignore
            &&& fg_hwnd == f.hwnd ==> (bounds matches Some(b) ==> r == (
            if spec_clamp(b, f.monitor_rect) != f.window_rect {
                TrackingAction::RepositionBorder(spec_clamp(b, f.monitor_rect))
            } else {
                TrackingAction::Ignore
            }))
        })),
{
    if !app.config.border_enabled {
        return TrackingAction::Ignore;
    }
    match &app.focus {
        None => TrackingAction::Ignore,
        Some(focus) => {
            if fg_hwnd != focus.hwnd {
                return TrackingAction::HideBorder;
            }
            match bounds {
                None => TrackingAction::Ignore,
                Some(b) => {
                    let clamped = clamp_to_monitor(&b, &focus.monitor_rect);
                    if clamped != focus.window_rect {
                        TrackingAction::RepositionBorder(clamped)
                    } else {
                        TrackingAction::Ignore
                    }
                },
            }
        },
    }
}

} // verus!
