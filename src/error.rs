//! Failures that the library reports.

use vstd::prelude::*;

verus! {

/// What went wrong in building a configuration or rendering a frame.
#[derive(Clone, Copy, Debug, PartialEq, Eq, Structural)]
pub enum ChafaError {
    /// A native resource (configuration, canvas, terminal profile) could not be created.
    AllocationFailed,
    /// No known terminal profile matches the environment.
    DetectionFailed,
    /// The engine produced no output for the session's frame, or there was no frame.
    RenderFailed,
}

} // verus!
