//! The decisions of a two-thread GUI harness: the presentation loop on the
//! OS-event thread (frame pacing, key bindings, keeping the newest frame) and
//! the UI worker loop (draining, parking, applying input events in order,
//! emitting snapshots, shutting down).
use vstd::prelude::*;

pub mod bridge;
pub mod pacing;
pub mod presentation;
pub mod worker;

verus! {

} // verus!
