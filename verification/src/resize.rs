//! Correction of live-resize proposals.
//!
//! During an interactive drag the native windowing system offers a candidate
//! rectangle (or size) frame by frame. The engine overrides exactly one axis
//! of the proposal so that the video view keeps the target aspect ratio,
//! pinning the edge opposite the drag, and leaves the axis the user is "more
//! correct" about intact on corner drags.

use vstd::prelude::*;

use crate::geometry::ParamsView;
use crate::geometry::ResizerParams;
use crate::geometry::adjusted_height_of;
use crate::geometry::adjusted_width_of;
use crate::geometry::clamp_to_u32;
use crate::geometry::is_ready;
use crate::geometry::view_height_of;
use crate::geometry::view_width_of;
use crate::geometry::wf;

verus! {

/// The smallest window width the engine will derive a height from: a proposed
/// width below this is raised to it, so the geometry never degenerates to a
/// near-zero view.
pub const MIN_WINDOW_WIDTH: u32 = 320;

/// Which edge or corner of the window the user is dragging. `Unknown` stands
/// for a native notification model that does not report which edge initiated
/// the resize; the engine then always derives the height from the proposed
/// width, leaving the width fully user-controlled.
#[derive(Clone, Copy, Debug, PartialEq, Eq, Structural)]
pub enum DragKind {
    Left,
    Right,
    Top,
    Bottom,
    TopLeft,
    TopRight,
    BottomLeft,
    BottomRight,
    Unknown,
}

/// A window rectangle in screen coordinates, as native resize notifications
/// carry it: `right` and `bottom` are exclusive, so the width is
/// `right - left` and the height `bottom - top`.
#[derive(Clone, Copy, Debug, PartialEq, Eq, Structural)]
pub struct Rect {
    pub left: i32,
    pub top: i32,
    pub right: i32,
    pub bottom: i32,
}

/// The edge of the proposal that the engine moves to restore the aspect:
/// `Left`/`Right` derive the width from the proposed height, `Top`/`Bottom`
/// derive the height from the proposed width.
#[derive(Clone, Copy, Debug, PartialEq, Eq, Structural)]
pub enum ResizeOverride {
    Top,
    Bottom,
    Left,
    Right,
}

pub open spec fn rect_width(r: Rect) -> int {
    r.right - r.left
}

pub open spec fn rect_height(r: Rect) -> int {
    r.bottom - r.top
}

/// Clamp a mathematical integer into the `i32` range.
pub open spec fn clamp_to_i32(x: int) -> int {
    if x < i32::MIN {
        i32::MIN as int
    } else if x > i32::MAX {
        i32::MAX as int
    } else {
        x
    }
}

/// A proposed width raised to the configured minimum.
pub open spec fn min_clamped_width(w: int) -> int {
    if w < MIN_WINDOW_WIDTH as int {
        MIN_WINDOW_WIDTH as int
    } else {
        w
    }
}

/// Whether the drag kind is a corner drag, changing both dimensions at once.
pub open spec fn is_corner(kind: DragKind) -> bool {
    kind is TopLeft || kind is TopRight || kind is BottomLeft || kind is BottomRight
}

/// Whether the user controls the left edge of the window under this drag
/// kind; otherwise the right edge. (For `Unknown` the notification is
/// size-based, which amounts to moving the right edge.)
pub open spec fn drags_left_edge(kind: DragKind) -> bool {
    kind is Left || kind is TopLeft || kind is BottomLeft
}

/// True exactly when the target aspect ratio is strictly below the live view
/// aspect ratio `vw / vh`: the dragged view is proportionally wider than the
/// target. Stated by cross-multiplication, with the inequality flipped for a
/// negative `vh` so that it agrees with the comparison of the two real
/// ratios.
pub open spec fn target_aspect_below_view(v: ParamsView, vw: int, vh: int) -> bool
    recommends
        v.video_height > 0,
        vh != 0,
{
    if vh > 0 {
        v.video_width * vh < vw * v.video_height
    } else {
        v.video_width * vh > vw * v.video_height
    }
}

/// The axis override a drag kind selects. Edge drags keep the dragged axis
/// and override the other; corner drags compare the live view aspect with
/// the target: if the target is strictly below, the horizontal edge of the
/// corner is overridden (width derived from height), otherwise -- including
/// at exact equality -- the vertical edge (height derived from width).
pub open spec fn override_for(v: ParamsView, kind: DragKind, vw: int, vh: int) -> ResizeOverride {
    match kind {
        DragKind::Top => ResizeOverride::Right,
        DragKind::Bottom => ResizeOverride::Right,
        DragKind::Left => ResizeOverride::Bottom,
        DragKind::Right => ResizeOverride::Bottom,
        DragKind::Unknown => ResizeOverride::Bottom,
        DragKind::TopLeft => if target_aspect_below_view(v, vw, vh) {
            ResizeOverride::Left
        } else {
            ResizeOverride::Top
        },
        DragKind::TopRight => if target_aspect_below_view(v, vw, vh) {
            ResizeOverride::Right
        } else {
            ResizeOverride::Top
        },
        DragKind::BottomLeft => if target_aspect_below_view(v, vw, vh) {
            ResizeOverride::Left
        } else {
            ResizeOverride::Bottom
        },
        DragKind::BottomRight => if target_aspect_below_view(v, vw, vh) {
            ResizeOverride::Right
        } else {
            ResizeOverride::Bottom
        },
    }
}

/// The proposal with the chosen override applied. A width override moves one
/// horizontal edge to `pinned + adjusted width`; a height override first
/// raises the proposed width to the configured minimum (moving the dragged
/// horizontal edge if that changes it), then moves one vertical edge to
/// `pinned + adjusted height`. Moved edges saturate at the `i32` range.
pub open spec fn apply_override(v: ParamsView, ov: ResizeOverride, left_edge: bool, r: Rect) -> Rect {
    let w = rect_width(r);
    let h = rect_height(r);
    match ov {
        ResizeOverride::Right => (Rect {
            right: clamp_to_i32(r.left + adjusted_width_of(v, h)) as i32,
            ..r
        }),
        ResizeOverride::Left => (Rect {
            left: clamp_to_i32(r.right - adjusted_width_of(v, h)) as i32,
            ..r
        }),
        ResizeOverride::Bottom => {
            let w2 = min_clamped_width(w);
            let r2 = clamp_width_edge(r, w2, left_edge);
            Rect { bottom: clamp_to_i32(r2.top + adjusted_height_of(v, w2)) as i32, ..r2 }
        },
        ResizeOverride::Top => {
            let w2 = min_clamped_width(w);
            let r2 = clamp_width_edge(r, w2, left_edge);
            Rect { top: clamp_to_i32(r2.bottom - adjusted_height_of(v, w2)) as i32, ..r2 }
        },
    }
}

/// The proposal with its width set to `w2` by moving the dragged horizontal
/// edge; a proposal whose width already is `w2` is unchanged.
pub open spec fn clamp_width_edge(r: Rect, w2: int, left_edge: bool) -> Rect {
    if left_edge {
        Rect { left: clamp_to_i32(r.right - w2) as i32, ..r }
    } else {
        Rect { right: clamp_to_i32(r.left + w2) as i32, ..r }
    }
}

/// The corrected rectangle for a live-resize proposal: the proposal itself
/// when the chrome inset is not yet measured, or when a corner drag meets a
/// zero-height view (whose live aspect is undefined); otherwise the proposal
/// with the selected override applied.
pub open spec fn corrected_rect(v: ParamsView, kind: DragKind, r: Rect) -> Rect
    recommends
        wf(v),
{
    let vw = view_width_of(v, rect_width(r));
    let vh = view_height_of(v, rect_height(r));
    if !is_ready(v) {
        r
    } else if is_corner(kind) && vh == 0 {
        r
    } else {
        apply_override(v, override_for(v, kind, vw, vh), drags_left_edge(kind), r)
    }
}

/// The corrected size for a size-based live-resize proposal (a notification
/// model that reports no drag edge): the proposal when the chrome inset is
/// not yet measured; otherwise the width raised to the configured minimum and
/// the height derived from it.
pub open spec fn corrected_size(v: ParamsView, w: int, h: int) -> (int, int)
    recommends
        wf(v),
{
    if !is_ready(v) {
        (w, h)
    } else {
        let w2 = min_clamped_width(w);
        (w2, clamp_to_u32(adjusted_height_of(v, w2)))
    }
}

/// One round of alternating corrections: a left/right-style correction
/// derives the height from the (minimum-clamped) width, then a
/// top/bottom-style correction derives the width back from that height; the
/// result is clamped again, as the next height derivation would clamp it.
pub open spec fn alternation_step(v: ParamsView, w: int) -> int {
    min_clamped_width(adjusted_width_of(v, adjusted_height_of(v, min_clamped_width(w))))
}

/// Edge-drag convergence, first half: for a chrome narrower than the minimum
/// window width, one round of alternating corrections never increases the
/// (clamped) width and never takes it below the minimum. Together with
/// `lemma_alternation_fixed_point` this rules out oscillation: from any
/// starting width the rounds form a non-increasing sequence bounded below,
/// which must reach a width it no longer changes.
pub proof fn lemma_alternation_monotone(v: ParamsView, w: int)
    requires
        wf(v),
        v.frame_width <= MIN_WINDOW_WIDTH as int,
    ensures
        MIN_WINDOW_WIDTH as int <= alternation_step(v, w),
        alternation_step(v, w) <= min_clamped_width(w),
        alternation_step(v, w) == min_clamped_width(w) || alternation_step(v, w)
            < min_clamped_width(w),
{
    let c = min_clamped_width(w);
    crate::geometry::lemma_aspect_round_trip(v, c);
}

/// The width after `k` rounds of alternating corrections, starting from the
/// (clamped) proposed width.
pub open spec fn alternation_iter(v: ParamsView, w: int, k: nat) -> int
    decreases k,
{
    if k == 0 {
        min_clamped_width(w)
    } else {
        alternation_step(v, alternation_iter(v, w, (k - 1) as nat))
    }
}

/// Every round keeps the width between the minimum and the starting width,
/// and either the width is already a fixed point or `k` rounds have brought
/// it down by at least `k`.
proof fn lemma_alternation_descent(v: ParamsView, w: int, k: nat)
    requires
        wf(v),
        v.frame_width <= MIN_WINDOW_WIDTH as int,
    ensures
        MIN_WINDOW_WIDTH as int <= alternation_iter(v, w, k),
        alternation_iter(v, w, k) <= min_clamped_width(w),
        alternation_step(v, alternation_iter(v, w, k)) == alternation_iter(v, w, k)
            || alternation_iter(v, w, k) <= min_clamped_width(w) - k,
    decreases k,
{
    if k > 0 {
        lemma_alternation_descent(v, w, (k - 1) as nat);
        let prev = alternation_iter(v, w, (k - 1) as nat);
        lemma_alternation_monotone(v, prev);
        assert(min_clamped_width(prev) == prev);
        if alternation_step(v, prev) == prev {
            assert(alternation_iter(v, w, k) == prev);
        }
    }
}

/// Edge-drag convergence, in full: from any starting rectangle, after at
/// most `min_clamped_width(w) - MIN_WINDOW_WIDTH` rounds the alternating
/// corrections reach a width they no longer change; together with
/// `lemma_alternation_monotone` the rounds form a non-increasing sequence
/// into that fixed point, so no oscillation occurs.
pub proof fn lemma_alternation_converges(v: ParamsView, w: int)
    requires
        wf(v),
        v.frame_width <= MIN_WINDOW_WIDTH as int,
    ensures
        ({
            let k = (min_clamped_width(w) - MIN_WINDOW_WIDTH as int) as nat;
            alternation_step(v, alternation_iter(v, w, k)) == alternation_iter(v, w, k)
        }),
{
    let k = (min_clamped_width(w) - MIN_WINDOW_WIDTH as int) as nat;
    lemma_alternation_descent(v, w, k);
    let x = alternation_iter(v, w, k);
    if alternation_step(v, x) != x {
        assert(x == MIN_WINDOW_WIDTH as int);
        lemma_alternation_monotone(v, x);
        assert(min_clamped_width(x) == x);
    }
}

/// Edge-drag convergence, second half: a width that one round of alternating
/// corrections leaves in place is a fixed point — every further round leaves
/// it in place too.
pub proof fn lemma_alternation_fixed_point(v: ParamsView, w: int)
    requires
        wf(v),
        v.frame_width <= MIN_WINDOW_WIDTH as int,
        alternation_step(v, w) == min_clamped_width(w),
    ensures
        alternation_step(v, alternation_step(v, w)) == alternation_step(v, w),
{
    let c = min_clamped_width(w);
    assert(min_clamped_width(c) == c);
}

/// Corner tie-break determinism: the corrected rectangle of a corner drag is
/// a pure function of the geometry state and the proposed rectangle, so
/// identical inputs always select the same override axis; and at exact
/// equality of the target and live view aspect ratios the vertical edge is
/// overridden (the height is derived from the width) — a fixed, documented
/// default.
pub proof fn lemma_corner_tie_break(v: ParamsView, kind: DragKind, r1: Rect, r2: Rect)
    requires
        is_corner(kind),
        r1 == r2,
    ensures
        corrected_rect(v, kind, r1) == corrected_rect(v, kind, r2),
        ({
            let vw = view_width_of(v, rect_width(r1));
            let vh = view_height_of(v, rect_height(r1));
            (vh != 0 && v.video_width * vh == vw * v.video_height) ==> override_for(v, kind, vw,
                vh) == (if kind is TopLeft || kind is TopRight {
                ResizeOverride::Top
            } else {
                ResizeOverride::Bottom
            })
        }),
{
}

/// Minimum width clamp: whenever the correction derives the height from the
/// proposed width — a left/right edge drag, an unknown drag kind, or a
/// corner drag whose vertical edge is overridden — the width it derives from,
/// and the width of the corrected rectangle, is the proposed width raised to
/// at least `MIN_WINDOW_WIDTH` (provided the moved edge does not saturate at
/// the `i32` range).
pub proof fn lemma_min_width_clamp(v: ParamsView, kind: DragKind, r: Rect)
    requires
        wf(v),
        is_ready(v),
        !(is_corner(kind) && view_height_of(v, rect_height(r)) == 0),
        override_for(v, kind, view_width_of(v, rect_width(r)), view_height_of(v, rect_height(r)))
            is Bottom || override_for(v, kind, view_width_of(v, rect_width(r)), view_height_of(v,
            rect_height(r))) is Top,
        i32::MIN <= r.right - min_clamped_width(rect_width(r)),
        r.left + min_clamped_width(rect_width(r)) <= i32::MAX,
    ensures
        rect_width(corrected_rect(v, kind, r)) == min_clamped_width(rect_width(r)),
        rect_width(corrected_rect(v, kind, r)) >= MIN_WINDOW_WIDTH as int,
{
    let w2 = min_clamped_width(rect_width(r));
    let le = drags_left_edge(kind);
    let r2 = clamp_width_edge(r, w2, le);
    assert(rect_width(r2) == w2);
}

/// Minimum width clamp for a size-based proposal: once ready, any proposed
/// width below the configured minimum is raised to it before the height is
/// derived, and the corrected width is never below the minimum.
pub proof fn lemma_min_width_clamp_size(v: ParamsView, w: int, h: int)
    requires
        wf(v),
        is_ready(v),
    ensures
        corrected_size(v, w, h).0 == min_clamped_width(w),
        corrected_size(v, w, h).0 >= MIN_WINDOW_WIDTH as int,
        corrected_size(v, w, h).1 == clamp_to_u32(adjusted_height_of(v, min_clamped_width(w))),
{
}

/// Clamp a wide machine integer into the `i32` range.
fn clamp_i128_to_i32(x: i128) -> (r: i32)
    ensures
        r as int == clamp_to_i32(x as int),
{
    if x < i32::MIN as i128 {
        i32::MIN
    } else if x > i32::MAX as i128 {
        i32::MAX
    } else {
        x as i32
    }
}

/// The corner tie-break on machine integers.
fn target_aspect_below_view_exec(params: &ResizerParams, vw: i128, vh: i128) -> (r: bool)
    requires
        wf(params@),
        -0x4_0000_0000_0000 <= vw <= 0x4_0000_0000_0000,
        -0x4_0000_0000_0000 <= vh <= 0x4_0000_0000_0000,
    ensures
        r == target_aspect_below_view(params@, vw as int, vh as int),
{
    let (aw, ah): (u32, u32) = params.video_size_parts();
    proof {
        crate::geometry::lemma_mul_bound(vh as int, aw as int, 0x4_0000_0000_0000,
            0x1_0000_0000);
        crate::geometry::lemma_mul_bound(vw as int, ah as int, 0x4_0000_0000_0000,
            0x1_0000_0000);
    }
    if vh > 0 {
        (aw as i128) * vh < vw * (ah as i128)
    } else {
        (aw as i128) * vh > vw * (ah as i128)
    }
}

/// Correct a live-resize proposal carrying the drag kind and a candidate
/// rectangle, returning the rectangle to apply in its place. A proposal made
/// before the chrome inset is measured, or a corner proposal whose live view
/// aspect is undefined, passes through unmodified: a live-resize notification
/// must never fail.
pub fn correct_resize(params: &ResizerParams, kind: DragKind, proposal: Rect) -> (r: Rect)
    requires
        wf(params@),
    ensures
        r == corrected_rect(params@, kind, proposal),
{
    if !params.is_initialized_window_frame_size() {
        return proposal;
    }
    let w: i128 = proposal.right as i128 - proposal.left as i128;
    let h: i128 = proposal.bottom as i128 - proposal.top as i128;
    let ov: ResizeOverride = match kind {
        DragKind::Top => ResizeOverride::Right,
        DragKind::Bottom => ResizeOverride::Right,
        DragKind::Left => ResizeOverride::Bottom,
        DragKind::Right => ResizeOverride::Bottom,
        DragKind::Unknown => ResizeOverride::Bottom,
        DragKind::TopLeft | DragKind::TopRight | DragKind::BottomLeft
            | DragKind::BottomRight => {
            let vw: i128 = params.view_width_i128(w);
            let vh: i128 = params.view_height_i128(h);
            if vh == 0 {
                return proposal;
            }
            let below: bool = target_aspect_below_view_exec(params, vw, vh);
            match kind {
                DragKind::TopLeft => if below {
                    ResizeOverride::Left
                } else {
                    ResizeOverride::Top
                },
                DragKind::TopRight => if below {
                    ResizeOverride::Right
                } else {
                    ResizeOverride::Top
                },
                DragKind::BottomLeft => if below {
                    ResizeOverride::Left
                } else {
                    ResizeOverride::Bottom
                },
                _ => if below {
                    ResizeOverride::Right
                } else {
                    ResizeOverride::Bottom
                },
            }
        },
    };
    let left_edge: bool = match kind {
        DragKind::Left => true,
        DragKind::TopLeft => true,
        DragKind::BottomLeft => true,
        _ => false,
    };
    match ov {
        ResizeOverride::Right => {
            let nw: i128 = params.adjusted_width_i128(h);
            Rect { right: clamp_i128_to_i32(proposal.left as i128 + nw), ..proposal }
        },
        ResizeOverride::Left => {
            let nw: i128 = params.adjusted_width_i128(h);
            Rect { left: clamp_i128_to_i32(proposal.right as i128 - nw), ..proposal }
        },
        ResizeOverride::Bottom => {
            let w2: i128 = if w < MIN_WINDOW_WIDTH as i128 {
                MIN_WINDOW_WIDTH as i128
            } else {
                w
            };
            let r2: Rect = if left_edge {
                Rect { left: clamp_i128_to_i32(proposal.right as i128 - w2), ..proposal }
            } else {
                Rect { right: clamp_i128_to_i32(proposal.left as i128 + w2), ..proposal }
            };
            let nh: i128 = params.adjusted_height_i128(w2);
            Rect { bottom: clamp_i128_to_i32(r2.top as i128 + nh), ..r2 }
        },
        ResizeOverride::Top => {
            let w2: i128 = if w < MIN_WINDOW_WIDTH as i128 {
                MIN_WINDOW_WIDTH as i128
            } else {
                w
            };
            let r2: Rect = if left_edge {
                Rect { left: clamp_i128_to_i32(proposal.right as i128 - w2), ..proposal }
            } else {
                Rect { right: clamp_i128_to_i32(proposal.left as i128 + w2), ..proposal }
            };
            let nh: i128 = params.adjusted_height_i128(w2);
            Rect { top: clamp_i128_to_i32(r2.bottom as i128 - nh), ..r2 }
        },
    }
}

/// Correct a size-based live-resize proposal, as a notification model that
/// reports sizes without a drag edge delivers it: the width is raised to the
/// configured minimum and the height derived from it. A proposal made before
/// the chrome inset is measured passes through unmodified.
pub fn window_will_resize_to_size(params: &ResizerParams, width: u32, height: u32) -> (r: (
    u32,
    u32,
))
    requires
        wf(params@),
    ensures
        (r.0 as int, r.1 as int) == corrected_size(params@, width as int, height as int),
{
    if !params.is_initialized_window_frame_size() {
        return (width, height);
    }
    let w2: u32 = if width < MIN_WINDOW_WIDTH {
        MIN_WINDOW_WIDTH
    } else {
        width
    };
    let h2: u32 = params.adjusted_window_height(w2);
    (w2, h2)
}

} // verus!
