//! The process-wide registry of windows.
//!
//! Native resize callbacks are free functions without an implicit receiver,
//! so the adapter needs a table mapping each native window handle to that
//! window's controller. The table is populated when a window's interception
//! layer is installed, erased at teardown, and otherwise only read;
//! correctness comes from confinement to the thread that owns native event
//! dispatch, not from locking.

use std::collections::HashMap;

use vstd::prelude::*;

use crate::controller::Resizer;
use crate::controller::ResizerView;
use crate::geometry::GeometryError;
use crate::geometry::ParamsView;
use crate::geometry::Size;
use crate::geometry::chrome_initialized;
use crate::geometry::wf;

verus! {

broadcast use vstd::std_specs::hash::group_hash_axioms;

/// Every controller in the registry holds a well-formed geometry model.
pub open spec fn registry_wf(m: Map<u64, ResizerView>) -> bool {
    forall|h: u64| #[trigger] m.dom().contains(h) ==> wf(m[h].params)
}

/// The registry mapping native window handles to their controllers.
pub struct Registry {
    windows: HashMap<u64, Resizer>,
}

impl View for Registry {
    type V = Map<u64, ResizerView>;

    closed spec fn view(&self) -> Map<u64, ResizerView> {
        Map::new(
            |h: u64| self.windows@.dom().contains(h),
            |h: u64| self.windows@[h]@,
        )
    }
}

impl Registry {
    /// An empty registry: no window is installed.
    pub fn new() -> (r: Self)
        ensures
            r@ == Map::<u64, ResizerView>::empty(),
            registry_wf(r@),
    {
        let r = Registry { windows: HashMap::new() };
        proof {
            assert(r@ =~= Map::<u64, ResizerView>::empty());
        }
        r
    }

    /// Whether a window is currently installed under this handle.
    pub fn contains(&self, handle: u64) -> (r: bool)
        ensures
            r == self@.dom().contains(handle),
    {
        self.windows.contains_key(&handle)
    }

    /// Install a window: create its controller (fresh geometry, captured
    /// handler chain) and enter it under its native handle. Refused when the
    /// handle is already installed, in which case nothing changes.
    pub fn install(&mut self, handle: u64, original_handler: u64) -> (r: bool)
        requires
            registry_wf(old(self)@),
        ensures
            registry_wf(final(self)@),
            r == !old(self)@.dom().contains(handle),
            r ==> final(self)@ == old(self)@.insert(handle, ResizerView {
                params: ParamsView {
                    frame_width: 0,
                    frame_height: 0,
                    video_width: 16,
                    video_height: 9,
                    interface_height: 0,
                },
                original_handler,
            }),
            !r ==> final(self)@ == old(self)@,
    {
        if self.windows.contains_key(&handle) {
            return false;
        }
        let resizer = Resizer::new(original_handler);
        self.windows.insert(handle, resizer);
        proof {
            assert(final(self)@ =~= old(self)@.insert(handle, ResizerView {
                params: ParamsView {
                    frame_width: 0,
                    frame_height: 0,
                    video_width: 16,
                    video_height: 9,
                    interface_height: 0,
                },
                original_handler,
            }));
        }
        true
    }

    /// Tear down a window: erase its registry entry and hand back its
    /// controller, whose captured handler chain the adapter restores. The
    /// pair must never be invoked through the registry again.
    pub fn erase(&mut self, handle: u64) -> (r: Option<Resizer>)
        requires
            registry_wf(old(self)@),
        ensures
            registry_wf(final(self)@),
            final(self)@ == old(self)@.remove(handle),
            r is Some <==> old(self)@.dom().contains(handle),
            r is Some ==> r.unwrap()@ == old(self)@[handle],
    {
        let r = self.windows.remove(&handle);
        proof {
            assert(final(self)@ =~= old(self)@.remove(handle));
        }
        r
    }

    /// The controller of an installed window.
    pub fn get(&self, handle: u64) -> (r: Option<&Resizer>)
        ensures
            r is Some <==> self@.dom().contains(handle),
            r is Some ==> (*r.unwrap())@ == self@[handle],
    {
        self.windows.get(&handle)
    }

    /// Record the measured chrome inset of an installed window; see
    /// `Resizer::init_window_frame_size`. Returns whether the handle was
    /// installed; an unknown handle changes nothing.
    pub fn init_window_frame_size(&mut self, handle: u64, size: Size) -> (r: bool)
        requires
            registry_wf(old(self)@),
        ensures
            registry_wf(final(self)@),
            r == old(self)@.dom().contains(handle),
            !r ==> final(self)@ == old(self)@,
            r ==> final(self)@ == old(self)@.insert(handle, ResizerView {
                params: chrome_initialized(old(self)@[handle].params, size.width as int,
                    size.height as int),
                ..old(self)@[handle]
            }),
    {
        match self.windows.remove(&handle) {
            None => {
                proof {
                    assert(self@ =~= old(self)@);
                }
                false
            },
            Some(mut resizer) => {
                proof {
                    assert(old(self)@.dom().contains(handle));
                    assert(resizer@ == old(self)@[handle]);
                }
                resizer.init_window_frame_size(size);
                self.windows.insert(handle, resizer);
                proof {
                    let m0 = old(self)@;
                    let m1 = self@;
                    assert(m1 =~= m0.insert(handle, ResizerView {
                        params: chrome_initialized(m0[handle].params, size.width as int,
                            size.height as int),
                        ..m0[handle]
                    }));
                    assert forall|h: u64| #[trigger] m1.dom().contains(h) implies wf(
                        m1[h].params) by {
                        if h != handle {
                            assert(m0.dom().contains(h));
                        }
                    }
                }
                true
            },
        }
    }

    /// Update the target aspect of an installed window; see
    /// `Resizer::set_video_size`. `None` for an unknown handle, in which
    /// case nothing changes.
    pub fn set_video_size(&mut self, handle: u64, size: Size) -> (r: Option<
        Result<(), GeometryError>,
    >)
        requires
            registry_wf(old(self)@),
        ensures
            registry_wf(final(self)@),
            r is Some <==> old(self)@.dom().contains(handle),
            r is None ==> final(self)@ == old(self)@,
            (r is Some && r.unwrap() is Ok) <==> old(self)@.dom().contains(handle)
                && size.width > 0 && size.height > 0,
            (r is Some && r.unwrap() is Ok) ==> final(self)@ == old(self)@.insert(handle,
                ResizerView {
                    params: ParamsView {
                        video_width: size.width as int,
                        video_height: size.height as int,
                        ..old(self)@[handle].params
                    },
                    ..old(self)@[handle]
                }),
            (r is Some && r.unwrap() is Err) ==> r.unwrap() == Err::<(), GeometryError>(
                GeometryError::InvalidDimension,
            ) && final(self)@ == old(self)@,
    {
        match self.windows.remove(&handle) {
            None => {
                proof {
                    assert(self@ =~= old(self)@);
                    assert(!old(self)@.dom().contains(handle));
                }
                None
            },
            Some(mut resizer) => {
                proof {
                    assert(old(self)@.dom().contains(handle));
                    assert(resizer@ == old(self)@[handle]);
                }
                let out = resizer.set_video_size(size);
                self.windows.insert(handle, resizer);
                proof {
                    let m0 = old(self)@;
                    let m1 = self@;
                    if out is Ok {
                        assert(m1 =~= m0.insert(handle, ResizerView {
                            params: ParamsView {
                                video_width: size.width as int,
                                video_height: size.height as int,
                                ..m0[handle].params
                            },
                            ..m0[handle]
                        }));
                    } else {
                        assert(m1 =~= m0);
                    }
                    assert forall|h: u64| #[trigger] m1.dom().contains(h) implies wf(
                        m1[h].params) by {
                        if h != handle {
                            assert(m0.dom().contains(h));
                        }
                    }
                }
                Some(out)
            },
        }
    }

    /// Update the interface strip height of an installed window; see
    /// `Resizer::set_interface_height`. Returns whether the handle was
    /// installed; an unknown handle changes nothing.
    pub fn set_interface_height(&mut self, handle: u64, height: u32) -> (r: bool)
        requires
            registry_wf(old(self)@),
        ensures
            registry_wf(final(self)@),
            r == old(self)@.dom().contains(handle),
            !r ==> final(self)@ == old(self)@,
            r ==> final(self)@ == old(self)@.insert(handle, ResizerView {
                params: ParamsView {
                    interface_height: height as int,
                    ..old(self)@[handle].params
                },
                ..old(self)@[handle]
            }),
    {
        match self.windows.remove(&handle) {
            None => {
                proof {
                    assert(self@ =~= old(self)@);
                }
                false
            },
            Some(mut resizer) => {
                proof {
                    assert(old(self)@.dom().contains(handle));
                    assert(resizer@ == old(self)@[handle]);
                }
                resizer.set_interface_height(height);
                self.windows.insert(handle, resizer);
                proof {
                    let m0 = old(self)@;
                    let m1 = self@;
                    assert(m1 =~= m0.insert(handle, ResizerView {
                        params: ParamsView {
                            interface_height: height as int,
                            ..m0[handle].params
                        },
                        ..m0[handle]
                    }));
                    assert forall|h: u64| #[trigger] m1.dom().contains(h) implies wf(
                        m1[h].params) by {
                        if h != handle {
                            assert(m0.dom().contains(h));
                        }
                    }
                }
                true
            },
        }
    }
}

} // verus!
