//! Status-indicator state.
//!
//! The caller renders a small status image; the engine's side of it is pure
//! state — which indicator is shown and which animation frame it is on.
//! Rendering the pixels belongs to the presentation layer.

use vstd::prelude::*;

verus! {

/// Which indicator the status image shows.
#[derive(Clone, Copy, Debug, PartialEq, Eq, Structural)]
pub enum IconState {
    /// Nothing is being chased.
    Idle,
    /// A subscription is running.
    Working,
    /// The last cycle, launch or configuration load failed.
    Error,
}

/// The status image's state: the indicator and the animation frame.
#[derive(Clone, Copy, Debug, PartialEq, Eq, Structural)]
pub struct StatusImage {
    pub state: IconState,
    pub frame: u32,
}

impl StatusImage {
    /// A fresh, idle indicator.
    pub fn new() -> (r: StatusImage)
        ensures
            r.state is Idle,
            r.frame == 0,
    {
        StatusImage { state: IconState::Idle, frame: 0 }
    }

    /// Switch the indicator, keeping the frame.
    pub fn set_state(&mut self, state: IconState)
        ensures
            final(self).state == state,
            final(self).frame == old(self).frame,
    {
        self.state = state;
    }

    /// Advance (or reset) the animation frame, keeping the indicator.
    pub fn set_frame(&mut self, frame: u32)
        ensures
            final(self).state == old(self).state,
            final(self).frame == frame,
    {
        self.frame = frame;
    }
}

} // verus!
