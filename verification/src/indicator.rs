//! Monitor indicator badges: one fixed small overlay per monitor, anchored
//! at a constant margin from the monitor's work-area bottom-left corner,
//! showing the 1-based monitor index.  The active badge is distinguished
//! by fill color; all badges are re-rendered and raised together on every
//! focus resolution, so the active one is never occluded by another.

use vstd::prelude::*;

use crate::color::Color;
use crate::geometry::Rect;
use crate::text::{spec_decimal, u64_to_string};

verus! {

/// Badge width in pixels.
pub const BADGE_WIDTH: i32 = 48;

/// Badge height in pixels.
pub const BADGE_HEIGHT: i32 = 36;

/// Distance in pixels from the work-area corner.
pub const BADGE_MARGIN: i32 = 12;

/// Corner radius in pixels of the rounded badge background.
pub const BADGE_CORNER_RADIUS: i32 = 8;

/// The badge rectangle fits in machine coordinates on this work area.
pub open spec fn spec_badge_fits(work: Rect) -> bool {
    &&& work.left + BADGE_MARGIN + BADGE_WIDTH <= i32::MAX
    &&& i32::MIN <= work.bottom - BADGE_MARGIN - BADGE_HEIGHT
}

/// Where the badge sits on a monitor with this work rectangle: a fixed
/// margin in from the bottom-left corner.  The work rectangle (not the
/// full one) keeps the badge clear of a taskbar.
pub open spec fn spec_badge_rect(work: Rect) -> Rect {
    Rect {
        left: (work.left + BADGE_MARGIN) as i32,
        top: (work.bottom - BADGE_HEIGHT - BADGE_MARGIN) as i32,
        right: (work.left + BADGE_MARGIN + BADGE_WIDTH) as i32,
        bottom: (work.bottom - BADGE_MARGIN) as i32,
    }
}

/// Compute the badge rectangle for a monitor's work area.
pub fn badge_rect(work: &Rect) -> (r: Rect)
    requires
        spec_badge_fits(*work),
    ensures
        r == spec_badge_rect(*work),
        r.left as int == work.left + BADGE_MARGIN,
        r.top as int == work.bottom - BADGE_HEIGHT - BADGE_MARGIN,
        r.right as int == work.left + BADGE_MARGIN + BADGE_WIDTH,
        r.bottom as int == work.bottom - BADGE_MARGIN,
{
    Rect {
        left: work.left + BADGE_MARGIN,
        top: work.bottom - BADGE_HEIGHT - BADGE_MARGIN,
        right: work.left + BADGE_MARGIN + BADGE_WIDTH,
        bottom: work.bottom - BADGE_MARGIN,
    }
}

/// Fill color of the badge marking the active monitor.
pub fn active_color() -> (c: Color)
    ensures
        c == (Color { r: 0, g: 4700, b: 8400, a: 10000 }),
{
    Color { r: 0, g: 4700, b: 8400, a: 10000 }
}

/// Fill color of the other badges.
pub fn inactive_color() -> (c: Color)
    ensures
        c == (Color { r: 3500, g: 3500, b: 3500, a: 10000 }),
{
    Color { r: 3500, g: 3500, b: 3500, a: 10000 }
}

/// Color of the badge's index numeral.
pub fn text_color() -> (c: Color)
    ensures
        c == (Color { r: 10000, g: 10000, b: 10000, a: 10000 }),
{
    Color { r: 10000, g: 10000, b: 10000, a: 10000 }
}

/// The fill color a badge renders with, by its active state.
pub fn badge_fill_color(is_active: bool) -> (c: Color)
    ensures
        is_active ==> c == (Color { r: 0, g: 4700, b: 8400, a: 10000 }),
        !is_active ==> c == (Color { r: 3500, g: 3500, b: 3500, a: 10000 }),
{
    if is_active {
        active_color()
    } else {
        inactive_color()
    }
}

/// The numeral a badge displays: the 1-based monitor index.
pub fn badge_label(index: usize) -> (r: String)
    requires
        index < usize::MAX,
    ensures
        r@ == spec_decimal(index + 1),
{
    u64_to_string((index + 1) as u64)
}

/// One badge: its monitor index and whether that monitor holds the focused
/// window.
#[derive(Clone, Copy, PartialEq, Eq, Structural, Debug)]
pub struct Badge {
    pub index: usize,
    pub is_active: bool,
}

/// The set of badges, one per monitor, in monitor order.
pub struct MonitorIndicators {
    pub badges: Vec<Badge>,
}

impl MonitorIndicators {
    /// Badge `i` carries monitor index `i`.
    pub open spec fn wf(self) -> bool {
        forall|i: int| 0 <= i < self.badges@.len() ==> (#[trigger] self.badges@[i]).index == i
    }

    /// One inactive badge per monitor.
    pub fn new(monitor_count: usize) -> (r: MonitorIndicators)
        ensures
            r.badges@.len() == monitor_count,
            r.wf(),
            forall|i: int| 0 <= i < monitor_count ==> !(#[trigger] r.badges@[i]).is_active,
    {
        let mut badges: Vec<Badge> = Vec::new();
        let mut i: usize = 0;
        while i < monitor_count
            invariant
                i <= monitor_count,
                badges@.len() == i as int,
                forall|k: int|
                    0 <= k < i as int ==> (#[trigger] badges@[k]) == (Badge {
                        index: k as usize,
                        is_active: false,
                    }),
            decreases monitor_count - i,
        {
            badges.push(Badge { index: i, is_active: false });
            i = i + 1;
        }
        MonitorIndicators { badges }
    }

    /// Mark the badge of `active_index` active and every other badge
    /// inactive.  With well-formed badges at most one ends up active.
    pub fn set_active(&mut self, active_index: usize)
        ensures
            final(self).badges@.len() == old(self).badges@.len(),
            forall|i: int|
                0 <= i < old(self).badges@.len() ==> (#[trigger] final(self).badges@[i]) == (Badge {
                    index: old(self).badges@[i].index,
                    is_active: old(self).badges@[i].index == active_index,
                }),
            old(self).wf() ==> final(self).wf(),
            old(self).wf() ==> forall|i: int, j: int|
                0 <= i < final(self).badges@.len() && 0 <= j < final(self).badges@.len()
                    && (#[trigger] final(self).badges@[i]).is_active
                    && (#[trigger] final(self).badges@[j]).is_active ==> i == j,
    {
        let n = self.badges.len();
        let mut i: usize = 0;
        while i < n
            invariant
                i <= n,
                n == self.badges@.len(),
                self.badges@.len() == old(self).badges@.len(),
                forall|k: int|
                    i as int <= k < self.badges@.len() ==> #[trigger] self.badges@[k] == old(
                        self,
                    ).badges@[k],
                forall|k: int|
                    0 <= k < i as int ==> (#[trigger] self.badges@[k]) == (Badge {
                        index: old(self).badges@[k].index,
                        is_active: old(self).badges@[k].index == active_index,
                    }),
            decreases n - i,
        {
            let idx = self.badges[i].index;
            self.badges.set(i, Badge { index: idx, is_active: idx == active_index });
            i = i + 1;
        }
    }
}

} // verus!
