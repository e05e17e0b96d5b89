use vstd::prelude::*;
use crate::linux::LinuxManager;
use crate::manager::{snap_outcome, WindowManagerError, WindowManagerTrait};
use crate::types::{frame_of, RectModel, SnapPosition};

verus! {

/// Every snap region lies inside the work area it was computed from.
pub proof fn lemma_frame_within_work_area(pos: SnapPosition, wa: RectModel)
    requires
        wa.width >= 0,
        wa.height >= 0,
    ensures
        wa.contains(frame_of(pos, wa)),
{
    let w = wa.width;
    let h = wa.height;
    assert(w * 2 / 3 <= w && w / 3 + w * 2 / 3 <= w && w / 3 + w / 3 <= w) by (nonlinear_arith)
        requires
            w >= 0,
    ;
    assert(h * 2 / 3 <= h) by (nonlinear_arith)
        requires
            h >= 0,
    ;
}

/// Maximize yields the work area itself.
pub proof fn lemma_maximize_is_work_area(wa: RectModel)
    ensures
        frame_of(SnapPosition::Maximize, wa) == wa,
{
}

/// The left and right halves sit side by side with no gap, and share the
/// work area's vertical extent. Their widths sum to the full width when it is
/// even; when it is odd the single remaining pixel column is left over at the
/// right edge.
pub proof fn lemma_halves_tile(wa: RectModel)
    requires
        wa.width >= 0,
    ensures
        ({
            let l = frame_of(SnapPosition::LeftHalf, wa);
            let r = frame_of(SnapPosition::RightHalf, wa);
            &&& l.x == wa.x
            &&& r.x == l.x + l.width
            &&& l.y == wa.y && r.y == wa.y
            &&& l.height == wa.height && r.height == wa.height
            &&& wa.width % 2 == 0 ==> l.width + r.width == wa.width
            &&& wa.width % 2 == 1 ==> l.width + r.width == wa.width - 1
        }),
{
}

/// The three thirds each have width `w / 3` and start at `0`, `w / 3` and
/// `2w / 3` from the left edge of the work area.
pub proof fn lemma_thirds_layout(wa: RectModel)
    ensures
        ({
            let l = frame_of(SnapPosition::LeftThird, wa);
            let c = frame_of(SnapPosition::CenterThird, wa);
            let r = frame_of(SnapPosition::RightThird, wa);
            &&& l.width == wa.width / 3 && c.width == wa.width / 3 && r.width == wa.width / 3
            &&& l.x == wa.x
            &&& c.x == wa.x + wa.width / 3
            &&& r.x == wa.x + wa.width * 2 / 3
        }),
{
}

/// The centered region is two thirds of the work area in each dimension, and
/// its margins on opposite sides differ by at most the one pixel that integer
/// division drops.
pub proof fn lemma_center_margins(wa: RectModel)
    requires
        wa.width >= 0,
        wa.height >= 0,
    ensures
        ({
            let c = frame_of(SnapPosition::Center, wa);
            let left = c.x - wa.x;
            let right = (wa.x + wa.width) - (c.x + c.width);
            let top = c.y - wa.y;
            let bottom = (wa.y + wa.height) - (c.y + c.height);
            &&& c.width == wa.width * 2 / 3
            &&& c.height == wa.height * 2 / 3
            &&& left >= 0 && top >= 0
            &&& right == left || right == left + 1
            &&& bottom == top || bottom == top + 1
        }),
{
    let w = wa.width;
    let h = wa.height;
    assert(w * 2 / 3 <= w) by (nonlinear_arith)
        requires
            w >= 0,
    ;
    assert(h * 2 / 3 <= h) by (nonlinear_arith)
        requires
            h >= 0,
    ;
}

/// Opposite-corner quarters never overlap.
pub proof fn lemma_opposite_quarters_disjoint(wa: RectModel)
    requires
        wa.width >= 0,
        wa.height >= 0,
    ensures
        frame_of(SnapPosition::TopLeft, wa).disjoint(frame_of(SnapPosition::BottomRight, wa)),
        frame_of(SnapPosition::BottomRight, wa).disjoint(frame_of(SnapPosition::TopLeft, wa)),
        frame_of(SnapPosition::TopRight, wa).disjoint(frame_of(SnapPosition::BottomLeft, wa)),
        frame_of(SnapPosition::BottomLeft, wa).disjoint(frame_of(SnapPosition::TopRight, wa)),
{
}

/// When the focused-window lookup can only fail with `e`, snapping ends with
/// `e`, whatever the display lookup and the frame write would have done.
pub proof fn lemma_focus_failure_short_circuits<A: WindowManagerTrait>(
    inner: A,
    position: SnapPosition,
    e: WindowManagerError,
    r: Result<(), WindowManagerError>,
)
    requires
        forall|w| #[trigger]
            call_ensures(A::get_focused_window, (&inner,), w) ==> w == Err::<
                crate::types::Window,
                WindowManagerError,
            >(e),
        snap_outcome(inner, position, r),
    ensures
        r == Err::<(), WindowManagerError>(e),
{
}

/// On the Linux adapter every snap position fails with `PlatformNotSupported`.
pub proof fn lemma_linux_snap_unsupported(
    inner: LinuxManager,
    position: SnapPosition,
    r: Result<(), WindowManagerError>,
)
    requires
        snap_outcome(inner, position, r),
    ensures
        r == Err::<(), WindowManagerError>(WindowManagerError::PlatformNotSupported),
{
}

} // verus!
