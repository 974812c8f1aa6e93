//! The per-frame decision policy.
//!
//! Presenting a frame can fail; the failure decides what the frame loop
//! does next. Exactly one failure, running out of memory, is fatal; a lost
//! surface asks for reconfiguration; the remaining failures are transient
//! and the loop simply goes on to the next frame.

use vstd::prelude::*;

verus! {

/// Why acquiring or presenting a frame failed.
#[derive(Clone, Copy, Debug, PartialEq, Eq, Structural)]
pub enum SurfaceError {
    /// Acquiring the next frame took too long; transient.
    Timeout,
    /// The surface no longer matches its target; transient.
    Outdated,
    /// The surface was lost and must be reconfigured before the next frame.
    Lost,
    /// The GPU is out of memory; fatal.
    OutOfMemory,
}

/// What the frame loop does after one frame.
#[derive(Clone, Copy, Debug, PartialEq, Eq, Structural)]
pub enum FrameAction {
    /// Go on to the next frame.
    Proceed,
    /// Reconfigure the surface, then go on to the next frame.
    Reconfigure,
    /// Stop the frame loop.
    Terminate,
}

/// The action that follows one frame's result.
pub open spec fn spec_frame_action(result: Result<(), SurfaceError>) -> FrameAction {
    match result {
        Ok(_) => FrameAction::Proceed,
        Err(SurfaceError::Timeout) => FrameAction::Proceed,
        Err(SurfaceError::Outdated) => FrameAction::Proceed,
        Err(SurfaceError::Lost) => FrameAction::Reconfigure,
        Err(SurfaceError::OutOfMemory) => FrameAction::Terminate,
    }
}

/// Decide what the frame loop does after one frame: out of memory stops it,
/// a lost surface asks for reconfiguration, everything else proceeds.
pub fn handle_frame_result(result: Result<(), SurfaceError>) -> (action: FrameAction)
    ensures
        action == spec_frame_action(result),
{
    match result {
        Ok(_) => FrameAction::Proceed,
        Err(SurfaceError::Timeout) => FrameAction::Proceed,
        Err(SurfaceError::Outdated) => FrameAction::Proceed,
        Err(SurfaceError::Lost) => FrameAction::Reconfigure,
        Err(SurfaceError::OutOfMemory) => FrameAction::Terminate,
    }
}

/// Running out of memory, and only that, terminates the frame loop: every
/// other result, success included, leaves the loop running.
pub proof fn law_only_out_of_memory_terminates(result: Result<(), SurfaceError>)
    ensures
        spec_frame_action(result) == FrameAction::Terminate <==> result == Err::<(),
            SurfaceError,
        >(SurfaceError::OutOfMemory),
{
}

} // verus!
