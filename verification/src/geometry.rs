//! The geometry model: chrome inset, target aspect and interface height for
//! one window, and the pure arithmetic that derives a window height from a
//! width (or a width from a height) so that the embedded video view keeps its
//! intrinsic aspect ratio.
//!
//! All arithmetic is exact integer arithmetic on device pixels; the division
//! that applies the aspect ratio truncates toward zero, as a float-to-integer
//! cast would.

use vstd::prelude::*;

verus! {

/// A two-dimensional size in device pixels.
#[derive(Clone, Copy, Debug, PartialEq, Eq, Structural)]
pub struct Size {
    pub width: u32,
    pub height: u32,
}

/// Why a mutation of the geometry state was rejected.
#[derive(Clone, Copy, Debug, PartialEq, Eq, Structural)]
pub enum GeometryError {
    /// The window chrome was measured before the OS reported real geometry:
    /// the outer size was smaller than the inner content size.
    MeasurementError,
    /// A dimension that must stay positive would have become zero.
    InvalidDimension,
}

/// The mathematical model of a window's geometry parameters.
pub struct ParamsView {
    /// Width of the fixed window chrome (borders), in device pixels.
    pub frame_width: int,
    /// Height of the fixed window chrome (titlebar and borders).
    pub frame_height: int,
    /// Intrinsic width of the embedded video.
    pub video_width: int,
    /// Intrinsic height of the embedded video.
    pub video_height: int,
    /// Height of the auxiliary control strip under the video.
    pub interface_height: int,
}

/// Division truncating toward zero, as Rust's integer `/` and a float-to-int
/// cast both behave; for non-negative operands it agrees with `/` on `int`.
pub open spec fn div_trunc(a: int, b: int) -> int
    recommends
        b > 0,
{
    if a >= 0 {
        a / b
    } else {
        -((-a) / b)
    }
}

/// Clamp a mathematical integer into the `u32` range.
pub open spec fn clamp_to_u32(x: int) -> int {
    if x < 0 {
        0
    } else if x > u32::MAX {
        u32::MAX as int
    } else {
        x
    }
}

/// Well-formedness of a geometry model: every component is a `u32` value and
/// the target aspect has positive width and height, so the aspect ratio is
/// defined.
pub open spec fn wf(v: ParamsView) -> bool {
    &&& 0 <= v.frame_width <= u32::MAX
    &&& 0 <= v.frame_height <= u32::MAX
    &&& 1 <= v.video_width <= u32::MAX
    &&& 1 <= v.video_height <= u32::MAX
    &&& 0 <= v.interface_height <= u32::MAX
}

/// The chrome inset is known once it differs from the (0, 0) sentinel.
pub open spec fn is_ready(v: ParamsView) -> bool {
    !(v.frame_width == 0 && v.frame_height == 0)
}

/// Width left for the video view inside a window of outer width `w`.
pub open spec fn view_width_of(v: ParamsView, w: int) -> int {
    w - v.frame_width
}

/// Height left for the video view inside a window of outer height `h`.
pub open spec fn view_height_of(v: ParamsView, h: int) -> int {
    h - v.frame_height - v.interface_height
}

/// The outer window height that keeps the video view of a window of outer
/// width `w` at the target aspect ratio.
pub open spec fn adjusted_height_of(v: ParamsView, w: int) -> int {
    v.frame_height + div_trunc(view_width_of(v, w) * v.video_height, v.video_width)
        + v.interface_height
}

/// The outer window width that keeps the video view of a window of outer
/// height `h` at the target aspect ratio.
pub open spec fn adjusted_width_of(v: ParamsView, h: int) -> int {
    v.frame_width + div_trunc(view_height_of(v, h) * v.video_width, v.video_height)
}

/// The geometry model after a chrome measurement is recorded: the inset
/// transitions once, from the sentinel to the measured value, and is
/// immutable thereafter.
pub open spec fn chrome_initialized(v: ParamsView, frame_width: int, frame_height: int) -> ParamsView {
    if is_ready(v) {
        v
    } else {
        ParamsView { frame_width, frame_height, ..v }
    }
}

/// Idempotence of chrome initialization: recording the same measurement a
/// second time leaves the chrome inset — and with it the ready state — as the
/// first call left them.
pub proof fn lemma_initialize_chrome_idempotent(v: ParamsView, frame_width: int, frame_height: int)
    ensures
        chrome_initialized(chrome_initialized(v, frame_width, frame_height), frame_width,
            frame_height) == chrome_initialized(v, frame_width, frame_height),
        is_ready(chrome_initialized(chrome_initialized(v, frame_width, frame_height), frame_width,
            frame_height)) == is_ready(chrome_initialized(v, frame_width, frame_height)),
{
}

/// Geometry parameters of one window: the measured chrome inset (the (0, 0)
/// sentinel until measured), the intrinsic video size, and the height of the
/// auxiliary interface strip.
pub struct ResizerParams {
    window_frame_size: Size,
    video_size: Size,
    interface_height: u32,
}

impl View for ResizerParams {
    type V = ParamsView;

    closed spec fn view(&self) -> ParamsView {
        ParamsView {
            frame_width: self.window_frame_size.width as int,
            frame_height: self.window_frame_size.height as int,
            video_width: self.video_size.width as int,
            video_height: self.video_size.height as int,
            interface_height: self.interface_height as int,
        }
    }
}

impl ResizerParams {
    /// Fresh parameters: unmeasured chrome and a 16:9 default aspect.
    pub fn new() -> (r: Self)
        ensures
            wf(r@),
            !is_ready(r@),
            r@.video_width == 16,
            r@.video_height == 9,
            r@.interface_height == 0,
    {
        Self {
            window_frame_size: Size { width: 0, height: 0 },
            video_size: Size { width: 16, height: 9 },
            interface_height: 0,
        }
    }

    /// Whether the chrome inset has been measured.
    pub fn is_initialized_window_frame_size(&self) -> (r: bool)
        ensures
            r == is_ready(self@),
    {
        !(self.window_frame_size.width == 0 && self.window_frame_size.height == 0)
    }

    /// Record the measured chrome inset. The inset transitions once, from the
    /// sentinel to the measured value, and is immutable thereafter: a call on
    /// an already measured state changes nothing.
    pub fn init_window_frame_size(&mut self, window_frame_size: Size)
        ensures
            is_ready(old(self)@) ==> final(self)@ == old(self)@,
            !is_ready(old(self)@) ==> final(self)@ == (ParamsView {
                frame_width: window_frame_size.width as int,
                frame_height: window_frame_size.height as int,
                ..old(self)@
            }),
            final(self)@ == chrome_initialized(old(self)@, window_frame_size.width as int,
                window_frame_size.height as int),
            wf(old(self)@) ==> wf(final(self)@),
    {
        if self.window_frame_size.width == 0 && self.window_frame_size.height == 0 {
            self.window_frame_size = window_frame_size;
        }
    }

    /// Update the target aspect to the video's new intrinsic size. Rejected
    /// with `InvalidDimension` when either dimension is zero, in which case
    /// nothing changes.
    pub fn set_video_size(&mut self, size: Size) -> (r: Result<(), GeometryError>)
        ensures
            r is Ok <==> size.width > 0 && size.height > 0,
            r is Ok ==> final(self)@ == (ParamsView {
                video_width: size.width as int,
                video_height: size.height as int,
                ..old(self)@
            }),
            r is Err ==> final(self)@ == old(self)@ && r == Err::<(), GeometryError>(
                GeometryError::InvalidDimension,
            ),
            wf(old(self)@) ==> wf(final(self)@),
    {
        if size.width == 0 || size.height == 0 {
            Err(GeometryError::InvalidDimension)
        } else {
            self.video_size = size;
            Ok(())
        }
    }

    /// Update the height of the auxiliary interface strip.
    pub fn set_interface_height(&mut self, height: u32)
        ensures
            final(self)@ == (ParamsView { interface_height: height as int, ..old(self)@ }),
            wf(old(self)@) ==> wf(final(self)@),
    {
        self.interface_height = height;
    }

    /// Width left for the video view inside a window of outer width
    /// `window_width`.
    pub fn video_view_width(&self, window_width: u32) -> (r: i64)
        ensures
            r == view_width_of(self@, window_width as int),
    {
        window_width as i64 - self.window_frame_size.width as i64
    }

    /// Height left for the video view inside a window of outer height
    /// `window_height`.
    pub fn video_view_height(&self, window_height: u32) -> (r: i64)
        ensures
            r == view_height_of(self@, window_height as int),
    {
        window_height as i64 - self.window_frame_size.height as i64
            - self.interface_height as i64
    }

    /// The outer height that keeps a window of outer width `window_width` at
    /// the target aspect, clamped into the `u32` range.
    pub fn adjusted_window_height(&self, window_width: u32) -> (r: u32)
        requires
            wf(self@),
        ensures
            r == clamp_to_u32(adjusted_height_of(self@, window_width as int)),
    {
        let vw: i128 = window_width as i128 - self.window_frame_size.width as i128;
        proof {
            lemma_mul_bound(vw as int, self.video_size.height as int, 0x1_0000_0000,
                0x1_0000_0000);
        }
        let q: i128 = div_trunc_i128(vw * self.video_size.height as i128,
            self.video_size.width as i128);
        let total: i128 = self.window_frame_size.height as i128 + q
            + self.interface_height as i128;
        clamp_i128_to_u32(total)
    }

    /// The outer width that keeps a window of outer height `window_height` at
    /// the target aspect, clamped into the `u32` range.
    pub fn adjusted_window_width(&self, window_height: u32) -> (r: u32)
        requires
            wf(self@),
        ensures
            r == clamp_to_u32(adjusted_width_of(self@, window_height as int)),
    {
        let vh: i128 = window_height as i128 - self.window_frame_size.height as i128
            - self.interface_height as i128;
        proof {
            lemma_mul_bound(vh as int, self.video_size.width as int, 0x2_0000_0000,
                0x1_0000_0000);
        }
        let q: i128 = div_trunc_i128(vh * self.video_size.width as i128,
            self.video_size.height as i128);
        let total: i128 = self.window_frame_size.width as i128 + q;
        clamp_i128_to_u32(total)
    }
}

impl ResizerParams {
    /// `view_height_of` on a wide machine integer, for the resize engine.
    pub(crate) fn view_height_i128(&self, window_height: i128) -> (r: i128)
        requires
            -0x1_0000_0000_0000 <= window_height <= 0x1_0000_0000_0000,
        ensures
            r == view_height_of(self@, window_height as int),
    {
        window_height - self.window_frame_size.height as i128 - self.interface_height as i128
    }

    /// `view_width_of` on a wide machine integer, for the resize engine.
    pub(crate) fn view_width_i128(&self, window_width: i128) -> (r: i128)
        requires
            -0x1_0000_0000_0000 <= window_width <= 0x1_0000_0000_0000,
        ensures
            r == view_width_of(self@, window_width as int),
    {
        window_width - self.window_frame_size.width as i128
    }

    /// `adjusted_height_of` on a wide machine integer, for the resize engine.
    pub(crate) fn adjusted_height_i128(&self, window_width: i128) -> (r: i128)
        requires
            wf(self@),
            -0x1_0000_0000_0000 <= window_width <= 0x1_0000_0000_0000,
        ensures
            r == adjusted_height_of(self@, window_width as int),
            -0x8_0000_0000_0000_0000_0000 <= r <= 0x8_0000_0000_0000_0000_0000,
    {
        let vw: i128 = window_width - self.window_frame_size.width as i128;
        proof {
            lemma_mul_bound(vw as int, self.video_size.height as int, 0x2_0000_0000_0000,
                0x1_0000_0000);
        }
        let q: i128 = div_trunc_i128(vw * self.video_size.height as i128,
            self.video_size.width as i128);
        self.window_frame_size.height as i128 + q + self.interface_height as i128
    }

    /// `adjusted_width_of` on a wide machine integer, for the resize engine.
    pub(crate) fn adjusted_width_i128(&self, window_height: i128) -> (r: i128)
        requires
            wf(self@),
            -0x1_0000_0000_0000 <= window_height <= 0x1_0000_0000_0000,
        ensures
            r == adjusted_width_of(self@, window_height as int),
            -0x8_0000_0000_0000_0000_0000 <= r <= 0x8_0000_0000_0000_0000_0000,
    {
        let vh: i128 = window_height - self.window_frame_size.height as i128
            - self.interface_height as i128;
        proof {
            lemma_mul_bound(vh as int, self.video_size.width as int, 0x2_0000_0000_0000,
                0x1_0000_0000);
        }
        let q: i128 = div_trunc_i128(vh * self.video_size.width as i128,
            self.video_size.height as i128);
        self.window_frame_size.width as i128 + q
    }

    /// The target aspect and the chrome sizes, for the corner tie-break.
    pub(crate) fn video_size_parts(&self) -> (r: (u32, u32))
        ensures
            r.0 == self@.video_width,
            r.1 == self@.video_height,
    {
        (self.video_size.width, self.video_size.height)
    }
}

/// A product of two bounded factors is bounded by the product of the bounds.
pub(crate) proof fn lemma_mul_bound(a: int, b: int, am: int, bm: int) by (nonlinear_arith)
    requires
        -am <= a <= am,
        0 <= b <= bm,
    ensures
        -(am * bm) <= a * b <= am * bm,
        a * b == b * a,
{
}

/// Exact truncating division on machine integers, matching `div_trunc`.
pub(crate) fn div_trunc_i128(a: i128, b: i128) -> (r: i128)
    requires
        b > 0,
        a > i128::MIN,
    ensures
        r == div_trunc(a as int, b as int),
        a >= 0 ==> 0 <= r <= a,
        a < 0 ==> a <= r <= 0,
{
    if a >= 0 {
        let q: u128 = (a as u128) / (b as u128);
        assert(q <= a as u128);
        q as i128
    } else {
        let q: u128 = ((-a) as u128) / (b as u128);
        assert(q <= (-a) as u128);
        -(q as i128)
    }
}

/// Clamp a machine integer into the `u32` range.
pub(crate) fn clamp_i128_to_u32(x: i128) -> (r: u32)
    ensures
        r == clamp_to_u32(x as int),
{
    if x < 0 {
        0
    } else if x > u32::MAX as i128 {
        u32::MAX
    } else {
        x as u32
    }
}

/// Aspect invariant (round trip): for a well-formed geometry state and an
/// outer width `w` that leaves a non-negative video view, deriving the
/// height from `w` and then the width from that height gives back a width
/// that is at most `w` and misses it by at most one unit of rounding error —
/// the width lost when one truncated height unit is scaled back by the
/// aspect, `(video_width + video_height - 2) / video_height`, which is at
/// most one whenever the video is at least as tall as it is wide.
pub proof fn lemma_aspect_round_trip(v: ParamsView, w: int)
    requires
        wf(v),
        view_width_of(v, w) >= 0,
    ensures
        adjusted_width_of(v, adjusted_height_of(v, w)) <= w,
        w - adjusted_width_of(v, adjusted_height_of(v, w)) <= (v.video_width + v.video_height
            - 2) / v.video_height,
{
    let vw = view_width_of(v, w);
    let aw = v.video_width;
    let ah = v.video_height;
    assert(vw * ah >= 0) by (nonlinear_arith)
        requires
            vw >= 0,
            ah >= 1,
    ;
    let q = (vw * ah) / aw;
    assert(adjusted_height_of(v, w) == v.frame_height + q + v.interface_height);
    assert(view_height_of(v, adjusted_height_of(v, w)) == q);
    assert(q >= 0 && aw * q <= vw * ah && vw * ah < aw * q + aw) by (nonlinear_arith)
        requires
            aw >= 1,
            vw * ah >= 0,
            q == (vw * ah) / aw,
    ;
    assert(q * aw >= 0) by (nonlinear_arith)
        requires
            q >= 0,
            aw >= 1,
    ;
    let p = (q * aw) / ah;
    assert(adjusted_width_of(v, adjusted_height_of(v, w)) == v.frame_width + p);
    assert(p <= vw) by (nonlinear_arith)
        requires
            ah >= 1,
            vw >= 0,
            q * aw >= 0,
            aw * q <= vw * ah,
            p == (q * aw) / ah,
    ;
    assert(vw - p <= (aw + ah - 2) / ah) by (nonlinear_arith)
        requires
            ah >= 1,
            aw >= 1,
            vw >= 0,
            q >= 0,
            q * aw >= 0,
            vw * ah < aw * q + aw,
            p == (q * aw) / ah,
    ;
}

/// The aspect round trip for a video at least as tall as it is wide misses
/// the original width by at most one.
pub proof fn lemma_aspect_round_trip_tall(v: ParamsView, w: int)
    requires
        wf(v),
        view_width_of(v, w) >= 0,
        v.video_width <= v.video_height,
    ensures
        w - 1 <= adjusted_width_of(v, adjusted_height_of(v, w)) <= w,
{
    lemma_aspect_round_trip(v, w);
    assert((v.video_width + v.video_height - 2) / v.video_height <= 1) by (nonlinear_arith)
        requires
            1 <= v.video_width <= v.video_height,
    ;
}

/// The chrome inset implied by an outer window size and the size of its inner
/// content area: the componentwise difference, or `None` when the OS has not
/// yet realized the true window geometry and reports an outer size smaller
/// than the content size.
pub fn window_frame_size(
    outer_width: u32,
    outer_height: u32,
    inner_width: u32,
    inner_height: u32,
) -> (r: Option<Size>)
    ensures
        r is Some <==> outer_width >= inner_width && outer_height >= inner_height,
        r is Some ==> r == Some(Size {
            width: (outer_width - inner_width) as u32,
            height: (outer_height - inner_height) as u32,
        }),
{
    let width: u32 = match outer_width.checked_sub(inner_width) {
        Some(w) => w,
        None => { return None; },
    };
    let height: u32 = match outer_height.checked_sub(inner_height) {
        Some(h) => h,
        None => { return None; },
    };
    Some(Size { width, height })
}

} // verus!
