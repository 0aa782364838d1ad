//! Flash overlay: a full-monitor, semi-opaque fill shown when focus moves
//! to a different monitor, hidden again by a one-shot timer.  Only one
//! flash timer is ever pending; re-triggering replaces the pending timer
//! rather than stacking a second one, so a newer flash is never cut short
//! by an older timer.

use vstd::prelude::*;

use crate::color::{Color, COLOR_SCALE};
use crate::geometry::Rect;

verus! {

/// A request to show the flash surface: position it over `rect`, fill it,
/// and arm the one-shot hide timer for `duration_ms`.  When
/// `replaced_pending` is set, an earlier timer was still pending and must
/// be cancelled by arming the new one in its place.
#[derive(Clone, Copy, PartialEq, Eq, Structural, Debug)]
pub struct FlashPlan {
    pub rect: Rect,
    pub duration_ms: u32,
    pub replaced_pending: bool,
}

/// State of the flash overlay.
pub struct FlashOverlay {
    pub opacity: u32,
    pub timer_armed: bool,
}

impl FlashOverlay {
    pub fn new(opacity: u32) -> (o: FlashOverlay)
        requires
            opacity <= COLOR_SCALE,
        ensures
            o.opacity == opacity,
            !o.timer_armed,
    {
        FlashOverlay { opacity, timer_armed: false }
    }

    /// The constant semi-opaque blue the flash fills the monitor with.
    pub fn fill_color(&self) -> (c: Color)
        ensures
            c == (Color { r: 0, g: 4700, b: 8400, a: self.opacity }),
    {
        Color { r: 0, g: 4700, b: 8400, a: self.opacity }
    }

    /// Trigger a flash over a monitor's full rectangle.  Arms the single
    /// hide timer; a still-pending timer is replaced, never stacked.
    pub fn flash(&mut self, monitor_rect: &Rect, duration_ms: u32) -> (r: FlashPlan)
        ensures
            final(self).opacity == old(self).opacity,
            final(self).timer_armed,
            r == (FlashPlan {
                rect: *monitor_rect,
                duration_ms,
                replaced_pending: old(self).timer_armed,
            }),
    {
        let replaced_pending = self.timer_armed;
        self.timer_armed = true;
        FlashPlan { rect: *monitor_rect, duration_ms, replaced_pending }
    }

    /// The hide timer fired: the flash surface is hidden and no timer is
    /// pending any more.
    pub fn on_timer_expired(&mut self)
        ensures
            final(self).opacity == old(self).opacity,
            !final(self).timer_armed,
    {
        self.timer_armed = false;
    }
}

} // verus!
