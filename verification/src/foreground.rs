//! Foreground-window tracking.
//!
//! The tracker remembers the OS window handle that held input focus
//! immediately before a capture gesture, so response playback can be routed
//! back to the right target. Handle `0` is the sentinel for "none/unknown"
//! and is never recorded, preserving the last known real value. The store is
//! a single value with last-write-wins semantics.

use vstd::prelude::*;

verus! {

/// Records the most recent non-zero foreground window handle.
#[derive(Clone, Copy, Debug, PartialEq, Eq, Structural)]
pub struct ForegroundTracker {
    pub handle: isize,
}

impl ForegroundTracker {
    /// A fresh tracker knows no window yet.
    pub fn new() -> (t: ForegroundTracker)
        ensures
            t.handle == 0,
    {
        ForegroundTracker { handle: 0 }
    }

    /// Store `handle` unless it is the "none/unknown" sentinel `0`, in which
    /// case the last known real value is kept.
    pub fn record(&mut self, handle: isize)
        ensures
            handle != 0 ==> final(self).handle == handle,
            handle == 0 ==> final(self).handle == old(self).handle,
    {
        if handle != 0 {
            self.handle = handle;
        }
    }

    /// The last recorded handle, `0` if none was ever recorded.
    pub fn current(&self) -> (h: isize)
        ensures
            h == self.handle,
    {
        self.handle
    }
}

} // verus!
