use pcoplayer::controller::Resizer;
use pcoplayer::geometry::{ResizerParams, Size};
use pcoplayer::interceptor::{Dispatch, WindowNotification};
use pcoplayer::resize::{
    correct_resize, window_will_resize_to_size, DragKind, Rect, MIN_WINDOW_WIDTH,
};

fn ready_params() -> ResizerParams {
    let mut p = ResizerParams::new();
    p.init_window_frame_size(Size { width: 10, height: 20 });
    p.set_video_size(Size { width: 16, height: 9 }).unwrap();
    p
}

#[test]
fn proposal_passes_through_before_initialization() {
    let p = ResizerParams::new();
    let rect = Rect { left: 5, top: 6, right: 105, bottom: 206 };
    assert_eq!(correct_resize(&p, DragKind::Right, rect), rect);
    assert_eq!(window_will_resize_to_size(&p, 100, 200), (100, 200));
}

#[test]
fn right_edge_drag_derives_height_from_width() {
    let p = ready_params();
    // width 810 -> view width 800 -> view height 450 -> bottom = top + 470.
    let rect = Rect { left: 0, top: 0, right: 810, bottom: 100 };
    let out = correct_resize(&p, DragKind::Right, rect);
    assert_eq!(out, Rect { left: 0, top: 0, right: 810, bottom: 470 });
}

#[test]
fn left_edge_drag_pins_the_right_edge() {
    let p = ready_params();
    let rect = Rect { left: 0, top: 0, right: 810, bottom: 100 };
    let out = correct_resize(&p, DragKind::Left, rect);
    assert_eq!(out, Rect { left: 0, top: 0, right: 810, bottom: 470 });
}

#[test]
fn top_edge_drag_derives_width_from_height() {
    let p = ready_params();
    // height 470 -> view height 450 -> view width 800 -> right = left + 810.
    let rect = Rect { left: 0, top: 0, right: 100, bottom: 470 };
    let out = correct_resize(&p, DragKind::Top, rect);
    assert_eq!(out, Rect { left: 0, top: 0, right: 810, bottom: 470 });
}

#[test]
fn minimum_width_clamp_before_height_derivation() {
    let p = ready_params();
    // Proposed width 100 is below the minimum: it is raised to 320 by moving
    // the dragged (right) edge, and the height is derived from 320.
    let rect = Rect { left: 0, top: 0, right: 100, bottom: 50 };
    let out = correct_resize(&p, DragKind::Right, rect);
    let expected_height = 20 + (320 - 10) * 9 / 16; // truncating division
    assert_eq!(out.right - out.left, MIN_WINDOW_WIDTH as i32);
    assert_eq!(
        out,
        Rect { left: 0, top: 0, right: 320, bottom: expected_height }
    );
}

#[test]
fn minimum_width_clamp_moves_the_left_edge_for_left_drags() {
    let p = ready_params();
    let rect = Rect { left: 500, top: 0, right: 600, bottom: 50 };
    let out = correct_resize(&p, DragKind::Left, rect);
    assert_eq!(out.right, 600);
    assert_eq!(out.right - out.left, 320);
}

#[test]
fn corner_wider_than_target_overrides_the_horizontal_edge() {
    let p = ready_params();
    // View 800x90: live aspect 800/90 is wider than 16/9, so the corner's
    // horizontal edge is overridden: width derived from height.
    let rect = Rect { left: 0, top: 0, right: 810, bottom: 110 };
    let out = correct_resize(&p, DragKind::BottomRight, rect);
    // view height 90 -> width = 10 + 90*16/9 = 170.
    assert_eq!(out, Rect { left: 0, top: 0, right: 170, bottom: 110 });
}

#[test]
fn corner_taller_than_target_overrides_the_vertical_edge() {
    let p = ready_params();
    // View 390x450: live aspect is taller than 16/9, so the height is
    // derived from the (clamped) width 400.
    let rect = Rect { left: 0, top: 0, right: 400, bottom: 470 };
    let out = correct_resize(&p, DragKind::BottomRight, rect);
    // view width 390 -> height = 20 + 390*9/16 = 20 + 219 = 239.
    assert_eq!(out, Rect { left: 0, top: 0, right: 400, bottom: 239 });
}

#[test]
fn corner_tie_break_is_deterministic_and_prefers_height() {
    let p = ready_params();
    // View 160x90 matches 16:9 exactly: at equality the vertical edge is
    // overridden (height derived from width), and identical inputs always
    // give identical outputs.
    let rect = Rect { left: 0, top: 0, right: 170, bottom: 110 };
    let a = correct_resize(&p, DragKind::BottomRight, rect);
    let b = correct_resize(&p, DragKind::BottomRight, rect);
    assert_eq!(a, b);
    // Width clamped to 320, height derived from it: 20 + 310*9/16 = 194.
    assert_eq!(a, Rect { left: 0, top: 0, right: 320, bottom: 194 });
}

#[test]
fn corner_with_degenerate_view_height_passes_through() {
    let p = ready_params();
    // bottom - top == chrome height + interface height -> view height 0: the
    // live aspect is undefined and the proposal passes through.
    let rect = Rect { left: 0, top: 0, right: 500, bottom: 20 };
    assert_eq!(correct_resize(&p, DragKind::TopLeft, rect), rect);
}

#[test]
fn unknown_drag_kind_derives_height_from_width() {
    let p = ready_params();
    let rect = Rect { left: 0, top: 0, right: 810, bottom: 99 };
    let out = correct_resize(&p, DragKind::Unknown, rect);
    assert_eq!(out, Rect { left: 0, top: 0, right: 810, bottom: 470 });
}

#[test]
fn size_based_proposal_is_clamped_and_derived() {
    let p = ready_params();
    assert_eq!(window_will_resize_to_size(&p, 810, 99), (810, 470));
    // Width below the minimum is raised to it first.
    assert_eq!(
        window_will_resize_to_size(&p, 100, 99),
        (320, 20 + (320 - 10) * 9 / 16)
    );
}

#[test]
fn edge_drag_alternation_converges_without_oscillation() {
    let p = ready_params();
    // Alternate left/right-derived-height and top/bottom-derived-width
    // corrections and watch the width: it never increases, never drops below
    // the minimum, and reaches a fixed point.
    let mut rect = Rect { left: 0, top: 0, right: 1234, bottom: 77 };
    let mut prev_width = rect.right - rect.left;
    let mut fixed = false;
    for _ in 0..20 {
        let with_height = correct_resize(&p, DragKind::Right, rect);
        let with_width = correct_resize(&p, DragKind::Bottom, with_height);
        let w = with_width.right - with_width.left;
        assert!(w <= prev_width.max(MIN_WINDOW_WIDTH as i32));
        assert!(w >= MIN_WINDOW_WIDTH as i32 || w == prev_width);
        if with_width == rect {
            fixed = true;
            break;
        }
        prev_width = w;
        rect = with_width;
    }
    assert!(fixed);
}

#[test]
fn forwarding_scenario_close_notification() {
    // A close notification delivered to an installed interceptor is
    // forwarded to the original handler chain exactly once, with unmodified
    // arguments, and nothing else happens.
    let resizer = Resizer::new(42);
    let close = WindowNotification::Other { code: 16, arg1: 7, arg2: -3 };
    let dispatch = resizer.dispatch(&close);
    assert_eq!(dispatch, Dispatch::Forward { code: 16, arg1: 7, arg2: -3 });
}

#[test]
fn resize_proposal_is_answered_not_forwarded() {
    let mut resizer = Resizer::new(42);
    resizer.init_window_frame_size(Size { width: 10, height: 20 });
    resizer.set_video_size(Size { width: 16, height: 9 }).unwrap();
    let proposal = WindowNotification::WillResize {
        kind: DragKind::Right,
        rect: Rect { left: 0, top: 0, right: 810, bottom: 100 },
    };
    let dispatch = resizer.dispatch(&proposal);
    assert_eq!(
        dispatch,
        Dispatch::Respond { rect: Rect { left: 0, top: 0, right: 810, bottom: 470 } }
    );
}
