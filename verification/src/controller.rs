//! The per-window controller.
//!
//! A `Resizer` owns a window's geometry state together with its interception
//! layer, created as a pair when the window first appears. The app layer
//! mutates the geometry only through the controller; the interception layer
//! reads it during resize notifications and never mutates it.

use vstd::prelude::*;

use crate::geometry::GeometryError;
use crate::geometry::ParamsView;
use crate::geometry::ResizerParams;
use crate::geometry::Size;
use crate::geometry::adjusted_height_of;
use crate::geometry::clamp_to_u32;
use crate::geometry::is_ready;
use crate::geometry::wf;
use crate::geometry::window_frame_size;
use crate::interceptor::Dispatch;
use crate::interceptor::ResizeInterceptor;
use crate::interceptor::WindowNotification;
use crate::resize::corrected_rect;

verus! {

/// What the player was launched to show: the stream location and, when
/// known, the channel it belongs to.
#[derive(Clone, Debug)]
pub struct StreamInfo {
    pub url: Option<String>,
    pub channel_name: Option<String>,
    pub contact_url: Option<String>,
}

/// The mathematical model of a controller: its geometry state and the
/// handler chain captured by its interception layer.
pub struct ResizerView {
    pub params: ParamsView,
    pub original_handler: u64,
}

/// The controller of one window: geometry state plus interception layer.
pub struct Resizer {
    params: ResizerParams,
    interceptor: ResizeInterceptor,
}

impl View for Resizer {
    type V = ResizerView;

    closed spec fn view(&self) -> ResizerView {
        ResizerView { params: self.params@, original_handler: self.interceptor@ }
    }
}

impl Resizer {
    /// Create the controller for a freshly appeared window whose previous
    /// handler chain is `original_handler`: unmeasured chrome, a 16:9
    /// default aspect, and the interception layer installed.
    pub fn new(original_handler: u64) -> (r: Self)
        ensures
            wf(r@.params),
            !is_ready(r@.params),
            r@.params.video_width == 16,
            r@.params.video_height == 9,
            r@.params.interface_height == 0,
            r@.original_handler == original_handler,
    {
        Resizer {
            params: ResizerParams::new(),
            interceptor: ResizeInterceptor::install(original_handler),
        }
    }

    /// Tear down the window: consume the controller and hand back the
    /// captured handler chain so the adapter restores it.
    pub fn into_original_handler(self) -> (r: u64)
        ensures
            r == self@.original_handler,
    {
        self.interceptor.uninstall()
    }

    /// Whether the chrome inset has been measured.
    pub fn is_initialized_window_frame_size(&self) -> (r: bool)
        ensures
            r == is_ready(self@.params),
    {
        self.params.is_initialized_window_frame_size()
    }

    /// Record the measured chrome inset; it transitions once, from the
    /// sentinel to the measured value, and is immutable thereafter.
    pub fn init_window_frame_size(&mut self, window_frame_size: Size)
        requires
            wf(old(self)@.params),
        ensures
            wf(final(self)@.params),
            final(self)@.original_handler == old(self)@.original_handler,
            is_ready(old(self)@.params) ==> final(self)@.params == old(self)@.params,
            !is_ready(old(self)@.params) ==> final(self)@.params == (ParamsView {
                frame_width: window_frame_size.width as int,
                frame_height: window_frame_size.height as int,
                ..old(self)@.params
            }),
    {
        self.params.init_window_frame_size(window_frame_size);
    }

    /// Update the target aspect to the video's new intrinsic size; rejected
    /// with `InvalidDimension` when either dimension is zero, in which case
    /// nothing changes. Does not itself resize the window.
    pub fn set_video_size(&mut self, size: Size) -> (r: Result<(), GeometryError>)
        requires
            wf(old(self)@.params),
        ensures
            wf(final(self)@.params),
            final(self)@.original_handler == old(self)@.original_handler,
            r is Ok <==> size.width > 0 && size.height > 0,
            r is Ok ==> final(self)@.params == (ParamsView {
                video_width: size.width as int,
                video_height: size.height as int,
                ..old(self)@.params
            }),
            r is Err ==> final(self)@.params == old(self)@.params
                && r == Err::<(), GeometryError>(GeometryError::InvalidDimension),
    {
        self.params.set_video_size(size)
    }

    /// Update the height of the auxiliary interface strip.
    pub fn set_interface_height(&mut self, height: u32)
        requires
            wf(old(self)@.params),
        ensures
            wf(final(self)@.params),
            final(self)@.original_handler == old(self)@.original_handler,
            final(self)@.params == (ParamsView {
                interface_height: height as int,
                ..old(self)@.params
            }),
    {
        self.params.set_interface_height(height);
    }

    /// The outer height that keeps a window of outer width `window_width` at
    /// the target aspect, clamped into the `u32` range.
    pub fn adjusted_window_height(&self, window_width: u32) -> (r: u32)
        requires
            wf(self@.params),
        ensures
            r == clamp_to_u32(adjusted_height_of(self@.params, window_width as int)),
    {
        self.params.adjusted_window_height(window_width)
    }

    /// Handle one native notification; see `ResizeInterceptor::dispatch`.
    pub fn dispatch(&self, notification: &WindowNotification) -> (d: Dispatch)
        requires
            wf(self@.params),
        ensures
            match *notification {
                WindowNotification::WillResize { kind, rect } => d == (Dispatch::Respond {
                    rect: corrected_rect(self@.params, kind, rect),
                }),
                WindowNotification::Other { code, arg1, arg2 } => d == (Dispatch::Forward {
                    code,
                    arg1,
                    arg2,
                }),
            },
    {
        self.interceptor.dispatch(&self.params, notification)
    }
}

/// The geometry state of one window together with the stream it shows.
pub struct WindowState {
    pub resizer: Resizer,
    pub stream_info: StreamInfo,
}

/// The direct resize request to issue for a window whose outer size is
/// `outer`: the current width kept, the height recomputed to restore the
/// target aspect. `None` while the chrome inset is unmeasured — a
/// resize-affecting operation before initialization is a silent no-op.
/// Used outside interactive drags; never mid-drag.
pub fn update_height(resizer: &Resizer, outer: Size) -> (r: Option<Size>)
    requires
        wf(resizer@.params),
    ensures
        r is Some <==> is_ready(resizer@.params),
        r is Some ==> r == Some(Size {
            width: outer.width,
            height: clamp_to_u32(adjusted_height_of(resizer@.params, outer.width as int)) as u32,
        }),
{
    if !resizer.is_initialized_window_frame_size() {
        return None;
    }
    Some(Size { width: outer.width, height: resizer.adjusted_window_height(outer.width) })
}

/// First successful layout of a window: measure the chrome inset as outer
/// size minus inner content size, adopt the video's intrinsic size, and
/// return the direct resize request that restores the aspect.
///
/// Idempotent: once the chrome is measured, the call succeeds, changes
/// nothing and requests no resize, whatever the measurements.
/// `MeasurementError` when the chrome is unmeasured and the outer size is
/// smaller than the inner size in either dimension (the OS has not yet
/// realized true window geometry): nothing changes and the caller may
/// retry. A zero video dimension leaves the target aspect unchanged.
pub fn initialize(resizer: &mut Resizer, outer: Size, inner: Size, video: Size) -> (r: Result<
    Option<Size>,
    GeometryError,
>)
    requires
        wf(old(resizer)@.params),
    ensures
        wf(final(resizer)@.params),
        final(resizer)@.original_handler == old(resizer)@.original_handler,
        r is Err <==> !is_ready(old(resizer)@.params) && !(outer.width >= inner.width
            && outer.height >= inner.height),
        r is Err ==> final(resizer)@ == old(resizer)@ && r == Err::<Option<Size>, GeometryError>(
            GeometryError::MeasurementError,
        ),
        is_ready(old(resizer)@.params) ==> final(resizer)@ == old(resizer)@ && r == Ok::<
            Option<Size>,
            GeometryError,
        >(None),
        (!is_ready(old(resizer)@.params) && outer.width >= inner.width && outer.height
            >= inner.height) ==> {
            let measured = ParamsView {
                frame_width: outer.width - inner.width,
                frame_height: outer.height - inner.height,
                ..old(resizer)@.params
            };
            let updated = if video.width > 0 && video.height > 0 {
                ParamsView {
                    video_width: video.width as int,
                    video_height: video.height as int,
                    ..measured
                }
            } else {
                measured
            };
            final(resizer)@.params == updated && (r matches Ok(request) && (request is Some
                <==> is_ready(updated)) && (request is Some ==> request == Some(Size {
                width: outer.width,
                height: clamp_to_u32(adjusted_height_of(updated, outer.width as int)) as u32,
            })))
        },
{
    if resizer.is_initialized_window_frame_size() {
        return Ok(None);
    }
    let frame: Size = match window_frame_size(outer.width, outer.height, inner.width,
        inner.height) {
        Some(f) => f,
        None => { return Err(GeometryError::MeasurementError); },
    };
    resizer.init_window_frame_size(frame);
    let _ = resizer.set_video_size(video);
    Ok(update_height(resizer, outer))
}

} // verus!
