//! Application state: the current focus snapshot, the previous monitor
//! index, and the monitor list.  The state is the single authority the
//! overlay coordinator consumes; every focus update replaces the snapshot
//! wholesale and the comparison of monitor indices across updates is the
//! sole source of the "monitor changed" signal.

use vstd::prelude::*;

use crate::config::Config;
use crate::geometry::Rect;
use crate::monitor::MonitorInfo;

verus! {

/// The focused window together with its resolved monitor.
#[derive(Clone, Debug)]
pub struct FocusState {
    pub hwnd: isize,
    pub title: String,
    pub exe_name: String,
    pub window_rect: Rect,
    pub monitor_index: usize,
    pub monitor_name: String,
    pub monitor_rect: Rect,
}

/// Top-level application state managed by the dispatch loop.
pub struct App {
    pub config: Config,
    pub focus: Option<FocusState>,
    pub prev_monitor_index: Option<usize>,
    pub monitors: Vec<MonitorInfo>,
}

/// The state after a focus update: the snapshot is replaced, the previous
/// monitor index points at the new snapshot's monitor, and the monitor
/// changed exactly when an earlier snapshot sat on a different monitor.
pub open spec fn spec_update_focus(s: App, f: FocusState) -> (App, bool) {
    let changed = match s.prev_monitor_index {
        Some(prev) => prev != f.monitor_index,
        None => false,
    };
    (
        App {
            config: s.config,
            focus: Some(f),
            prev_monitor_index: Some(f.monitor_index),
            monitors: s.monitors,
        },
        changed,
    )
}

/// The state after focus is lost: the snapshot is absent but the previous
/// monitor index survives, so the next focus gain still compares against
/// the pre-loss monitor.
pub open spec fn spec_clear_focus(s: App) -> App {
    App { config: s.config, focus: None, prev_monitor_index: s.prev_monitor_index, monitors: s.monitors }
}

impl App {
    pub fn new(config: Config) -> (r: App)
        ensures
            r.config == config,
            r.focus is None,
            r.prev_monitor_index is None,
            r.monitors@.len() == 0,
    {
        App { config, focus: None, prev_monitor_index: None, monitors: Vec::new() }
    }

    /// Replace the focus state with a new snapshot.  Returns whether the
    /// monitor changed relative to the previous non-empty focus state.
    pub fn update_focus(&mut self, new_focus: FocusState) -> (monitor_changed: bool)
        ensures
            (*final(self), monitor_changed) == spec_update_focus(*old(self), new_focus),
    {
        let monitor_changed = match self.prev_monitor_index {
            Some(prev) => prev != new_focus.monitor_index,
            None => false,
        };
        self.prev_monitor_index = Some(new_focus.monitor_index);
        self.focus = Some(new_focus);
        monitor_changed
    }

    /// Drop the focus state, keeping the previous monitor index so a later
    /// focus gain can still detect a monitor change.
    pub fn clear_focus(&mut self)
        ensures
            *final(self) == spec_clear_focus(*old(self)),
    {
        self.focus = None;
    }

    /// Replace the monitor list atomically.
    pub fn set_monitors(&mut self, monitors: Vec<MonitorInfo>)
        ensures
            final(self).monitors == monitors,
            final(self).config == old(self).config,
            final(self).focus == old(self).focus,
            final(self).prev_monitor_index == old(self).prev_monitor_index,
    {
        self.monitors = monitors;
    }
}

/// Two sequential focus updates signal a monitor change on the second
/// exactly when the two snapshots' monitor indices differ — whatever the
/// window handles are, and whatever state came before.
pub proof fn lemma_monitor_change_detection(s: App, f1: FocusState, f2: FocusState)
    ensures
        ({
            let (s1, _) = spec_update_focus(s, f1);
            let (s2, changed2) = spec_update_focus(s1, f2);
            changed2 == (f1.monitor_index != f2.monitor_index)
        }),
{
}

/// Losing focus preserves the previous monitor index: a focus gain after a
/// loss compares against the monitor of the last non-empty focus state, as
/// if the loss had not happened.
pub proof fn lemma_focus_loss_preserves_detection(s: App, f1: FocusState, f2: FocusState)
    ensures
        ({
            let (s1, _) = spec_update_focus(s, f1);
            let s2 = spec_clear_focus(s1);
            s2.prev_monitor_index == Some(f1.monitor_index)
        }),
        ({
            let (s1, _) = spec_update_focus(s, f1);
            let (s3, changed3) = spec_update_focus(spec_clear_focus(s1), f2);
            changed3 == (f1.monitor_index != f2.monitor_index)
        }),
{
}

} // verus!
