//! Geometry resolver: rectangles, overlap areas, and the mapping from a
//! window rectangle to the monitor that owns it (largest overlap, ties to
//! the lowest index).

use vstd::prelude::*;

verus! {

/// An axis-aligned rectangle in screen coordinates.  `right` and `bottom`
/// are exclusive edges; a rectangle with `right <= left` or `bottom <= top`
/// is empty.
#[derive(Clone, Copy, PartialEq, Eq, Structural, Debug)]
pub struct Rect {
    pub left: i32,
    pub top: i32,
    pub right: i32,
    pub bottom: i32,
}

impl Rect {
    /// The all-zero rectangle, used as a sentinel when no real rectangle is
    /// available.
    pub fn zero() -> (r: Rect)
        ensures
            r == (Rect { left: 0, top: 0, right: 0, bottom: 0 }),
    {
        Rect { left: 0, top: 0, right: 0, bottom: 0 }
    }

    /// Pixel width as a mathematical integer (may be negative for an
    /// inverted rectangle).
    pub open spec fn spec_width(self) -> int {
        self.right - self.left
    }

    /// Pixel height as a mathematical integer.
    pub open spec fn spec_height(self) -> int {
        self.bottom - self.top
    }
}

/// Area of the intersection of `a` and `b`:
/// `max(0, min(right) - max(left)) * max(0, min(bottom) - max(top))`.
pub open spec fn spec_overlap_area(a: Rect, b: Rect) -> int {
    let x = vstd::math::min(a.right as int, b.right as int) - vstd::math::max(
        a.left as int,
        b.left as int,
    );
    let y = vstd::math::min(a.bottom as int, b.bottom as int) - vstd::math::max(
        a.top as int,
        b.top as int,
    );
    vstd::math::max(x, 0) * vstd::math::max(y, 0)
}

/// Two rectangles are disjoint when they share no interior point: their
/// horizontal or vertical projections do not properly overlap.
pub open spec fn spec_disjoint(a: Rect, b: Rect) -> bool {
    vstd::math::min(a.right as int, b.right as int) <= vstd::math::max(a.left as int, b.left as int)
        || vstd::math::min(a.bottom as int, b.bottom as int) <= vstd::math::max(
        a.top as int,
        b.top as int,
    )
}

/// `a` lies entirely inside `b`.
pub open spec fn spec_contained_in(a: Rect, b: Rect) -> bool {
    b.left <= a.left && a.right <= b.right && b.top <= a.top && a.bottom <= b.bottom
}

/// Overlap area of two rectangles.
///
/// The bound in `requires` only rules out results beyond `i64::MAX`, which
/// no real pair of screen rectangles approaches.
pub fn overlap_area(a: &Rect, b: &Rect) -> (r: i64)
    requires
        spec_overlap_area(*a, *b) <= i64::MAX,
    ensures
        r == spec_overlap_area(*a, *b),
{
    let xr: i64 = if a.right <= b.right {
        a.right as i64
    } else {
        b.right as i64
    };
    let xl: i64 = if a.left >= b.left {
        a.left as i64
    } else {
        b.left as i64
    };
    let yb: i64 = if a.bottom <= b.bottom {
        a.bottom as i64
    } else {
        b.bottom as i64
    };
    let yt: i64 = if a.top >= b.top {
        a.top as i64
    } else {
        b.top as i64
    };
    let x: i64 = if xr - xl > 0 {
        xr - xl
    } else {
        0
    };
    let y: i64 = if yb - yt > 0 {
        yb - yt
    } else {
        0
    };
    proof {
        assert(x * y == spec_overlap_area(*a, *b));
        assert(x * y >= 0) by (nonlinear_arith)
            requires
                x >= 0,
                y >= 0,
        ;
    }
    x * y
}

/// Overlap area computed in a wider type, total over all rectangles.
fn overlap_area_wide(a: &Rect, b: &Rect) -> (r: i128)
    ensures
        r == spec_overlap_area(*a, *b),
{
    let xr: i128 = if a.right <= b.right {
        a.right as i128
    } else {
        b.right as i128
    };
    let xl: i128 = if a.left >= b.left {
        a.left as i128
    } else {
        b.left as i128
    };
    let yb: i128 = if a.bottom <= b.bottom {
        a.bottom as i128
    } else {
        b.bottom as i128
    };
    let yt: i128 = if a.top >= b.top {
        a.top as i128
    } else {
        b.top as i128
    };
    let x: i128 = if xr - xl > 0 {
        xr - xl
    } else {
        0
    };
    let y: i128 = if yb - yt > 0 {
        yb - yt
    } else {
        0
    };
    proof {
        assert(x * y == spec_overlap_area(*a, *b));
        assert(0 <= x * y <= 0x1_0000_0000i128 * 0x1_0000_0000i128) by (nonlinear_arith)
            requires
                0 <= x <= 0x1_0000_0000i128,
                0 <= y <= 0x1_0000_0000i128,
        ;
    }
    x * y
}

/// Index of the monitor with the largest overlap among the first `n`
/// rectangles, scanning forward so that ties keep the earliest index.
pub open spec fn spec_best_prefix(w: Rect, mons: Seq<Rect>, n: int) -> int
    decreases n,
{
    if n <= 1 {
        0
    } else {
        let prev = spec_best_prefix(w, mons, n - 1);
        if spec_overlap_area(w, mons[n - 1]) > spec_overlap_area(w, mons[prev]) {
            n - 1
        } else {
            prev
        }
    }
}

/// Index of the monitor owning `w`: the first index whose overlap area is
/// maximal.  Defined as 0 for an empty list (callers are expected to guard).
pub open spec fn spec_best_monitor_index(w: Rect, mons: Seq<Rect>) -> int {
    spec_best_prefix(w, mons, mons.len() as int)
}

proof fn lemma_best_prefix_props(w: Rect, mons: Seq<Rect>, n: int)
    requires
        1 <= n <= mons.len(),
    ensures
        0 <= spec_best_prefix(w, mons, n) < n,
        forall|j: int|
            0 <= j < n ==> spec_overlap_area(w, mons[spec_best_prefix(w, mons, n)])
                >= #[trigger] spec_overlap_area(w, mons[j]),
        forall|j: int|
            0 <= j < spec_best_prefix(w, mons, n) ==> #[trigger] spec_overlap_area(w, mons[j])
                < spec_overlap_area(w, mons[spec_best_prefix(w, mons, n)]),
    decreases n,
{
    if n > 1 {
        lemma_best_prefix_props(w, mons, n - 1);
    }
}

/// The resolved monitor index is in range, its overlap area is at least
/// every other monitor's, and every earlier index has strictly smaller
/// overlap (ties resolve to the lowest index).
pub proof fn lemma_best_monitor_is_max(w: Rect, mons: Seq<Rect>)
    requires
        mons.len() > 0,
    ensures
        0 <= spec_best_monitor_index(w, mons) < mons.len(),
        forall|j: int|
            0 <= j < mons.len() ==> spec_overlap_area(w, mons[spec_best_monitor_index(w, mons)])
                >= #[trigger] spec_overlap_area(w, mons[j]),
        forall|j: int|
            0 <= j < spec_best_monitor_index(w, mons) ==> #[trigger] spec_overlap_area(w, mons[j])
                < spec_overlap_area(w, mons[spec_best_monitor_index(w, mons)]),
{
    lemma_best_prefix_props(w, mons, mons.len() as int);
}

/// Overlap area is symmetric in its two arguments.
pub proof fn lemma_overlap_symmetric(a: Rect, b: Rect)
    ensures
        spec_overlap_area(a, b) == spec_overlap_area(b, a),
{
}

/// Disjoint rectangles have zero overlap area.
pub proof fn lemma_overlap_disjoint(a: Rect, b: Rect)
    requires
        spec_disjoint(a, b),
    ensures
        spec_overlap_area(a, b) == 0,
{
    let x = vstd::math::max(
        vstd::math::min(a.right as int, b.right as int) - vstd::math::max(
            a.left as int,
            b.left as int,
        ),
        0,
    );
    let y = vstd::math::max(
        vstd::math::min(a.bottom as int, b.bottom as int) - vstd::math::max(
            a.top as int,
            b.top as int,
        ),
        0,
    );
    assert(x * y == 0) by (nonlinear_arith)
        requires
            x == 0 || y == 0,
    ;
}

/// A window with positive area that lies inside monitor `k` and is disjoint
/// from every other monitor resolves to `k`, wherever the other monitors
/// sit.  (A zero-area window would tie all monitors at zero overlap and
/// resolve to index 0 instead.)
pub proof fn lemma_contained_window_resolves(w: Rect, mons: Seq<Rect>, k: int)
    requires
        0 <= k < mons.len(),
        w.left < w.right,
        w.top < w.bottom,
        spec_contained_in(w, mons[k]),
        forall|j: int| 0 <= j < mons.len() && j != k ==> spec_disjoint(w, mons[j]),
    ensures
        spec_best_monitor_index(w, mons) == k,
{
    let area = w.spec_width() * w.spec_height();
    assert(w.spec_width() * w.spec_height() > 0) by (nonlinear_arith)
        requires
            w.spec_width() > 0,
            w.spec_height() > 0,
    ;
    assert(spec_overlap_area(w, mons[k]) == area);
    assert forall|j: int| 0 <= j < mons.len() && j != k implies spec_overlap_area(w, mons[j])
        == 0 by {
        lemma_overlap_disjoint(w, mons[j]);
    }
    lemma_best_monitor_is_max(w, mons);
    let best = spec_best_monitor_index(w, mons);
    assert(spec_overlap_area(w, mons[best]) >= area);
}

/// Find which monitor index has the most overlap with the given rectangle.
/// Returns 0 for an empty list, as a sentinel the caller must special-case.
pub fn best_monitor_index(window_rect: &Rect, monitor_rects: &[Rect]) -> (r: usize)
    ensures
        r as int == spec_best_monitor_index(*window_rect, monitor_rects@),
        monitor_rects@.len() > 0 ==> r < monitor_rects@.len(),
{
    if monitor_rects.len() == 0 {
        return 0;
    }
    let mut best: usize = 0;
    let mut best_ov: i128 = overlap_area_wide(window_rect, &monitor_rects[0]);
    let mut i: usize = 1;
    while i < monitor_rects.len()
        invariant
            monitor_rects@.len() > 0,
            1 <= i as int <= monitor_rects@.len(),
            0 <= best < i,
            best as int == spec_best_prefix(*window_rect, monitor_rects@, i as int),
            best_ov == spec_overlap_area(*window_rect, monitor_rects@[best as int]),
        decreases monitor_rects@.len() - i as int,
    {
        let ov = overlap_area_wide(window_rect, &monitor_rects[i]);
        if ov > best_ov {
            best = i;
            best_ov = ov;
        }
        i = i + 1;
    }
    best
}

/// The rectangle `rect` clamped to `monitor`: each edge pulled inward so
/// the result does not extend beyond the monitor.
pub open spec fn spec_clamp(rect: Rect, monitor: Rect) -> Rect {
    Rect {
        left: if rect.left >= monitor.left {
            rect.left
        } else {
            monitor.left
        },
        top: if rect.top >= monitor.top {
            rect.top
        } else {
            monitor.top
        },
        right: if rect.right <= monitor.right {
            rect.right
        } else {
            monitor.right
        },
        bottom: if rect.bottom <= monitor.bottom {
            rect.bottom
        } else {
            monitor.bottom
        },
    }
}

/// Clamp a window rectangle so it does not extend beyond its monitor.
/// Keeps a border drawn around the result from leaking onto adjacent
/// monitors when a maximized window overscans the screen edge.
pub fn clamp_to_monitor(rect: &Rect, monitor: &Rect) -> (r: Rect)
    ensures
        r == spec_clamp(*rect, *monitor),
        r.left as int == vstd::math::max(rect.left as int, monitor.left as int),
        r.top as int == vstd::math::max(rect.top as int, monitor.top as int),
        r.right as int == vstd::math::min(rect.right as int, monitor.right as int),
        r.bottom as int == vstd::math::min(rect.bottom as int, monitor.bottom as int),
{
    Rect {
        left: if rect.left >= monitor.left {
            rect.left
        } else {
            monitor.left
        },
        top: if rect.top >= monitor.top {
            rect.top
        } else {
            monitor.top
        },
        right: if rect.right <= monitor.right {
            rect.right
        } else {
            monitor.right
        },
        bottom: if rect.bottom <= monitor.bottom {
            rect.bottom
        } else {
            monitor.bottom
        },
    }
}

} // verus!
