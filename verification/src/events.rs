//! The frame loop's control decision. The windowing collaborator polls
//! events and condenses them into a `UserInput`; this module decides what
//! the loop does next: stop, rebuild the swapchain-dependent resources at
//! a new size, or draw the next frame.

use vstd::prelude::*;
use crate::swapchain::Extent2D;

verus! {

/// One poll of the event stream, condensed: whether closing was
/// requested, and the new size in physical pixels if the window was
/// resized since the last poll.
#[derive(Clone, Copy, Debug, PartialEq, Eq, Structural)]
pub struct UserInput {
    pub end_requested: bool,
    pub new_frame_size: Option<Extent2D>,
}

/// What the frame loop does next.
#[derive(Clone, Copy, Debug, PartialEq, Eq, Structural)]
pub enum LoopAction {
    /// Leave the loop and shut down.
    Stop,
    /// Tear down and recreate the swapchain-dependent resources at this
    /// extent, then resume drawing.
    Rebuild(Extent2D),
    /// Draw the next frame with the current resources.
    Draw,
}

/// Decide the next loop step: a close request stops the loop, a resize
/// forces a rebuild at the new size before any further drawing, and
/// otherwise the next frame is drawn.
pub fn next_loop_action(input: &UserInput) -> (a: LoopAction)
    ensures
        input.end_requested ==> a == LoopAction::Stop,
        !input.end_requested ==> match input.new_frame_size {
            Some(extent) => a == LoopAction::Rebuild(extent),
            None => a == LoopAction::Draw,
        },
{
    if input.end_requested {
        LoopAction::Stop
    } else {
        match input.new_frame_size {
            Some(extent) => LoopAction::Rebuild(extent),
            None => LoopAction::Draw,
        }
    }
}

} // verus!
