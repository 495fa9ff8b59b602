//! The per-window interception layer.
//!
//! An interceptor is installed on a native window: it captures the handler
//! chain that was registered before it, answers live-resize proposals with
//! corrected rectangles computed from the window's geometry state (which it
//! reads and never mutates), and forwards every other notification to the
//! captured chain with identical arguments — the layer must be invisible to
//! any behavior it does not explicitly alter. At teardown the captured chain
//! is handed back so the adapter can restore it.

use vstd::prelude::*;

use crate::geometry::ResizerParams;
use crate::geometry::wf;
use crate::resize::DragKind;
use crate::resize::Rect;
use crate::resize::correct_resize;
use crate::resize::corrected_rect;

verus! {

/// A notification delivered by the native window system to the interceptor:
/// either a live-resize proposal, or any other notification (close, move,
/// focus, backing-store change, ...) carried as its native code and
/// arguments.
#[derive(Clone, Copy, Debug, PartialEq, Eq, Structural)]
pub enum WindowNotification {
    WillResize { kind: DragKind, rect: Rect },
    Other { code: u32, arg1: i64, arg2: i64 },
}

/// What the native adapter must do with a notification: answer a live-resize
/// proposal with the corrected rectangle, or invoke the original handler
/// chain with identical arguments and return its result unchanged.
#[derive(Clone, Copy, Debug, PartialEq, Eq, Structural)]
pub enum Dispatch {
    Respond { rect: Rect },
    Forward { code: u32, arg1: i64, arg2: i64 },
}

/// The interception layer of one window, from installation to teardown: the
/// handler chain captured at install time, identified by an opaque token of
/// the native adapter.
pub struct ResizeInterceptor {
    original_handler: u64,
}

impl View for ResizeInterceptor {
    type V = u64;

    closed spec fn view(&self) -> u64 {
        self.original_handler
    }
}

impl ResizeInterceptor {
    /// Install on a window: capture the previously registered handler chain.
    pub fn install(original_handler: u64) -> (r: Self)
        ensures
            r@ == original_handler,
    {
        ResizeInterceptor { original_handler }
    }

    /// Tear down: consume the interceptor and hand back the captured handler
    /// chain so the adapter restores it.
    pub fn uninstall(self) -> (r: u64)
        ensures
            r == self@,
    {
        self.original_handler
    }

    /// The captured handler chain.
    pub fn original_handler(&self) -> (r: u64)
        ensures
            r == self@,
    {
        self.original_handler
    }

    /// Handle one native notification against the window's current geometry
    /// state. A live-resize proposal is answered with the corrected rectangle
    /// (the proposal itself while the chrome is unmeasured: a live-resize
    /// notification never fails); every other notification is forwarded to
    /// the original handler chain with its arguments unmodified, and nothing
    /// else.
    pub fn dispatch(&self, params: &ResizerParams, notification: &WindowNotification) -> (d:
        Dispatch)
        requires
            wf(params@),
        ensures
            match *notification {
                WindowNotification::WillResize { kind, rect } => d == (Dispatch::Respond {
                    rect: corrected_rect(params@, kind, rect),
                }),
                WindowNotification::Other { code, arg1, arg2 } => d == (Dispatch::Forward {
                    code,
                    arg1,
                    arg2,
                }),
            },
    {
        match notification {
            WindowNotification::WillResize { kind, rect } => Dispatch::Respond {
                rect: correct_resize(params, *kind, *rect),
            },
            WindowNotification::Other { code, arg1, arg2 } => Dispatch::Forward {
                code: *code,
                arg1: *arg1,
                arg2: *arg2,
            },
        }
    }
}

} // verus!
