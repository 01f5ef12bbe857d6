//! The decisions of the per-frame event loop.

use crate::input::{InputCache, InputView, Key, key_entry};
use vstd::prelude::*;

verus! {

/// The events of the window loop that call for a decision.
#[derive(Clone, Copy, Debug, PartialEq, Eq, Structural)]
pub enum LoopEvent {
    /// The window has a new size, in physical pixels.
    Resized { width: u32, height: u32 },
    CloseRequested,
    /// The frame's redraws are done.
    RedrawEventsCleared,
    /// Any other event.
    Other,
}

/// What the loop does after an event.
#[derive(Clone, Copy, Debug, PartialEq, Eq, Structural)]
pub enum LoopControl {
    Continue,
    Exit,
    /// Configure the surface with this size, then go on.
    Reconfigure { width: u32, height: u32 },
}

/// At least one.
pub open spec fn at_least_one(n: u32) -> u32 {
    if n == 0 {
        1
    } else {
        n
    }
}

/// The loop's decision on `event`: a resize reconfigures the surface with a
/// size of at least one pixel each way; a close request exits; at the end of
/// the redraws the loop exits while `quit_key` is active.
pub open spec fn loop_control(input: InputView, quit_key: Key, event: LoopEvent) -> LoopControl {
    match event {
        LoopEvent::Resized { width, height } => LoopControl::Reconfigure {
            width: at_least_one(width),
            height: at_least_one(height),
        },
        LoopEvent::CloseRequested => LoopControl::Exit,
        LoopEvent::RedrawEventsCleared => if key_entry(input.keyboard, quit_key) is Some {
            LoopControl::Exit
        } else {
            LoopControl::Continue
        },
        LoopEvent::Other => LoopControl::Continue,
    }
}

/// A loop that polls: it runs a frame whenever the window has no events left.
pub struct BasicLoop {}

impl BasicLoop {
    pub fn init() -> (r: Self) {
        BasicLoop {}
    }

    /// Decides what follows `event`, with the tracker's state at hand.
    pub fn control(&self, input: &InputCache, quit_key: Key, event: LoopEvent) -> (r: LoopControl)
        ensures
            r == loop_control(input@, quit_key, event),
    {
        match event {
            LoopEvent::Resized { width, height } => LoopControl::Reconfigure {
                width: if width == 0 {
                    1
                } else {
                    width
                },
                height: if height == 0 {
                    1
                } else {
                    height
                },
            },
            LoopEvent::CloseRequested => LoopControl::Exit,
            LoopEvent::RedrawEventsCleared => {
                if input.key_state(&quit_key).is_some() {
                    LoopControl::Exit
                } else {
                    LoopControl::Continue
                }
            },
            LoopEvent::Other => LoopControl::Continue,
        }
    }
}

} // verus!
