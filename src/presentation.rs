use vstd::prelude::*;

use crate::bridge::{classify, terminates, toggles_fullscreen, NativeEvent};
use crate::pacing::{pacing_delay, pacing_delay_spec};

verus! {

/// A change of display mode that the presentation loop must carry out.
#[derive(Clone, Copy, Debug, PartialEq, Eq, Structural)]
pub enum FullscreenChange {
    /// Switch the window to fullscreen on its current monitor.
    Enter,
    /// Switch the window back to windowed mode.
    Leave,
}

/// The decisions of the presentation loop that runs on the OS-event thread:
/// whether it goes on, and whether the window is in fullscreen mode.
#[derive(Clone, Copy, Debug, PartialEq, Eq, Structural)]
pub struct PresentationLoop {
    closed: bool,
    fullscreen: bool,
    budget: u64,
}

impl PresentationLoop {
    pub closed spec fn spec_closed(&self) -> bool {
        self.closed
    }

    pub closed spec fn spec_fullscreen(&self) -> bool {
        self.fullscreen
    }

    pub closed spec fn spec_budget(&self) -> nat {
        self.budget as nat
    }

    /// A loop that runs, in windowed mode, with the given frame budget in nanoseconds.
    pub fn new(budget: u64) -> (r: Self)
        ensures
            !r.spec_closed(),
            !r.spec_fullscreen(),
            r.spec_budget() == budget,
    {
        PresentationLoop { closed: false, fullscreen: false, budget }
    }

    /// Whether a terminating event has been observed.
    pub fn is_closed(&self) -> (r: bool)
        ensures
            r == self.spec_closed(),
    {
        self.closed
    }

    /// Whether the window is currently in fullscreen mode.
    pub fn is_fullscreen(&self) -> (r: bool)
        ensures
            r == self.spec_fullscreen(),
    {
        self.fullscreen
    }

    /// How long to sleep at the start of an iteration, given the nanoseconds
    /// elapsed since the last frame boundary.
    pub fn pace(&self, elapsed: u64) -> (r: u64)
        ensures
            r == pacing_delay_spec(elapsed as nat, self.spec_budget()),
            elapsed + r >= self.spec_budget(),
            elapsed < self.spec_budget() ==> elapsed + r == self.spec_budget(),
    {
        pacing_delay(elapsed, self.budget)
    }

    /// Applies the side classification of one polled native event: a
    /// terminating event closes the loop, an F11 press flips the display mode,
    /// which the caller then carries out as the returned change says.
    pub fn observe(&mut self, ev: &NativeEvent) -> (r: Option<FullscreenChange>)
        ensures
            final(self).spec_closed() == (old(self).spec_closed() || terminates(*ev)),
            final(self).spec_fullscreen() == (old(self).spec_fullscreen() != toggles_fullscreen(
                *ev,
            )),
            final(self).spec_budget() == old(self).spec_budget(),
            r == (if !toggles_fullscreen(*ev) {
                None::<FullscreenChange>
            } else if final(self).spec_fullscreen() {
                Some(FullscreenChange::Enter)
            } else {
                Some(FullscreenChange::Leave)
            }),
    {
        let c = classify(ev);
        if c.terminate {
            self.closed = true;
        }
        if c.toggle_fullscreen {
            self.fullscreen = !self.fullscreen;
            if self.fullscreen {
                Some(FullscreenChange::Enter)
            } else {
                Some(FullscreenChange::Leave)
            }
        } else {
            None
        }
    }
}

/// The snapshot that a drain of the primitive channel keeps: the most recent.
pub open spec fn latest_spec<T>(received: Seq<T>) -> Option<T> {
    if received.len() == 0 {
        None
    } else {
        Some(received.last())
    }
}

/// Keeps only the most recently received snapshot of those drained from the
/// primitive channel, in the order they were received; the others are dropped.
pub fn latest_of<T>(received: Vec<T>) -> (r: Option<T>)
    ensures
        r == latest_spec(received@),
        received@.len() >= 1 ==> r == Some(received@[received@.len() - 1]),
{
    let mut received = received;
    received.pop()
}

} // verus!
