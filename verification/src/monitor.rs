//! Monitor registry model: descriptors for the attached displays and the
//! ordering that keeps index 0 on the leftmost monitor.  Enumeration itself
//! is an operating-system query; the caller hands its raw result to
//! `sort_monitors` and replaces the whole list atomically.

use vstd::prelude::*;

use crate::geometry::Rect;

verus! {

broadcast use vstd::seq_lib::group_to_multiset_ensures, vstd::multiset::group_multiset_axioms;

/// One display device.  `work_rect` excludes reserved system chrome such as
/// a taskbar; `full_rect` is the entire display area.  Immutable once
/// enumerated.
#[derive(Clone, Debug)]
pub struct MonitorInfo {
    pub handle: isize,
    pub name: String,
    pub work_rect: Rect,
    pub full_rect: Rect,
    pub is_primary: bool,
}

/// Monitors ordered by the left edge of their full rectangle.
pub open spec fn spec_sorted_by_left(s: Seq<MonitorInfo>) -> bool {
    forall|i: int, j: int|
        0 <= i < j < s.len() ==> #[trigger] s[i].full_rect.left <= #[trigger] s[j].full_rect.left
}

/// Sort monitors ascending by the left edge of the full rectangle, so that
/// monitor ordering is stable and predictable across re-enumerations,
/// independent of the order the operating system reported them in.
pub fn sort_monitors(monitors: Vec<MonitorInfo>) -> (r: Vec<MonitorInfo>)
    ensures
        spec_sorted_by_left(r@),
        r@.to_multiset() == monitors@.to_multiset(),
        r@.len() == monitors@.len(),
{
    let mut rest = monitors;
    let mut out: Vec<MonitorInfo> = Vec::new();
    proof {
        assert(out@.to_multiset().add(rest@.to_multiset()) =~= monitors@.to_multiset());
    }
    while rest.len() > 0
        invariant
            spec_sorted_by_left(out@),
            out@.to_multiset().add(rest@.to_multiset()) == monitors@.to_multiset(),
            out@.len() + rest@.len() == monitors@.len(),
        decreases rest@.len(),
    {
        let ghost rest_before = rest@;
        let m = match rest.pop() {
            Some(m) => m,
            None => {
                proof {
                    assert(false);
                }
                unreached()
            },
        };
        proof {
            assert(rest_before == rest@.push(m));
            assert(rest@.push(m).to_multiset() =~= rest@.to_multiset().insert(m));
            assert(rest_before.to_multiset() == rest@.to_multiset().insert(m));
        }
        let mut idx: usize = 0;
        while idx < out.len() && out[idx].full_rect.left <= m.full_rect.left
            invariant
                idx as int <= out@.len(),
                forall|k: int| 0 <= k < idx as int ==> #[trigger] out@[k].full_rect.left <= m.full_rect.left,
                spec_sorted_by_left(out@),
            decreases out@.len() - idx as int,
        {
            idx = idx + 1;
        }
        let ghost out_before = out@;
        out.insert(idx, m);
        proof {
            assert(out@ == out_before.insert(idx as int, m));
            assert(out_before.insert(idx as int, m).to_multiset() == out_before.to_multiset().insert(
                m,
            ));
            assert(out@.to_multiset() == out_before.to_multiset().insert(m));
            assert(out@.to_multiset().add(rest@.to_multiset()) =~= monitors@.to_multiset());
            assert forall|i: int, j: int| 0 <= i < j < out@.len() implies #[trigger] out@[i].full_rect.left
                <= #[trigger] out@[j].full_rect.left by {
                if (idx as int) < out_before.len() {
                    assert(out_before[idx as int].full_rect.left > m.full_rect.left);
                }
            }
        }
    }
    out
}

/// The full rectangles of a monitor list, in the same order.
pub fn monitor_full_rects(monitors: &Vec<MonitorInfo>) -> (r: Vec<Rect>)
    ensures
        r@.len() == monitors@.len(),
        forall|i: int| 0 <= i < monitors@.len() ==> r@[i] == #[trigger] monitors@[i].full_rect,
{
    let mut r: Vec<Rect> = Vec::new();
    let mut i: usize = 0;
    while i < monitors.len()
        invariant
            i as int <= monitors@.len(),
            r@.len() == i as int,
            forall|k: int| 0 <= k < i as int ==> r@[k] == #[trigger] monitors@[k].full_rect,
        decreases monitors@.len() - i as int,
    {
        r.push(monitors[i].full_rect);
        i = i + 1;
    }
    r
}

/// The work rectangles of a monitor list, in the same order.
pub fn monitor_work_rects(monitors: &Vec<MonitorInfo>) -> (r: Vec<Rect>)
    ensures
        r@.len() == monitors@.len(),
        forall|i: int| 0 <= i < monitors@.len() ==> r@[i] == #[trigger] monitors@[i].work_rect,
{
    let mut r: Vec<Rect> = Vec::new();
    let mut i: usize = 0;
    while i < monitors.len()
        invariant
            i as int <= monitors@.len(),
            r@.len() == i as int,
            forall|k: int| 0 <= k < i as int ==> r@[k] == #[trigger] monitors@[k].work_rect,
        decreases monitors@.len() - i as int,
    {
        r.push(monitors[i].work_rect);
        i = i + 1;
    }
    r
}

} // verus!
