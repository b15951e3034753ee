//! Polling resize resynchronization.
//!
//! The drawing surface's backing store does not follow its logical size
//! by itself. Rather than subscribe to a notification that may not exist
//! in every execution context, the monitor compares the two sizes on
//! every twentieth tick and asks for a resync only when they differ.

use vstd::prelude::*;

verus! {

/// How many ticks pass between two looks at the live size: an explicit
/// throttle against redundant layout reads and GPU reallocation.
pub const RESIZE_CHECK_PERIOD: u64 = 20;

/// The backing-store size the monitor last synchronized to.
pub struct ResizeMonitor {
    pub cached_width: u32,
    pub cached_height: u32,
}

impl ResizeMonitor {
    /// A monitor whose cache starts at the size the surface was given
    /// when the component mounted.
    pub fn new(initial_width: u32, initial_height: u32) -> (m: Self)
        ensures
            m.cached_width == initial_width,
            m.cached_height == initial_height,
    {
        ResizeMonitor { cached_width: initial_width, cached_height: initial_height }
    }

    /// Decides whether the backing store must be resynchronized on this
    /// tick. A resync is requested exactly when the tick counter is a
    /// multiple of the throttle period and the live size differs from
    /// the cached one; only then does the cache move to the live size,
    /// which the host must now apply to the backing store and viewport.
    pub fn poll(&mut self, frame_count: u64, live_width: u32, live_height: u32) -> (resync: Option<
        (u32, u32),
    >)
        ensures
            resync is Some <==> (frame_count % RESIZE_CHECK_PERIOD == 0 && (live_width
                != old(self).cached_width || live_height != old(self).cached_height)),
            resync is Some ==> resync == Some((live_width, live_height)),
            resync is Some ==> final(self).cached_width == live_width
                && final(self).cached_height == live_height,
            resync is None ==> *final(self) == *old(self),
    {
        if frame_count % RESIZE_CHECK_PERIOD == 0 && (live_width != self.cached_width
            || live_height != self.cached_height) {
            self.cached_width = live_width;
            self.cached_height = live_height;
            Some((live_width, live_height))
        } else {
            None
        }
    }
}

} // verus!
