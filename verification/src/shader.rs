//! The decision taken while a shader program is built.
//!
//! Compiling a shader and linking a program go the same way: the backend
//! asks the GPU to do the work and reads a status back. On success the new
//! object is ready. On failure the backend reads the info log of the object
//! and stops with the text of that log.

use vstd::prelude::*;

verus! {

/// The status that the GPU reports for a successful compile or link.
pub const STATUS_OK: i32 = 1;

/// What follows once the status of a compile or link is known.
#[derive(Clone, Copy, Debug, PartialEq, Eq, Structural)]
pub enum BuildStep {
    /// The object with this name is ready for use.
    Ready(u32),
    /// The build failed: read the info log of the object with this name and
    /// stop with its text.
    ReadInfoLog(u32),
}

/// Decides what follows for the shader or program `object` whose compile or
/// link status is `status`.
pub fn after_status(object: u32, status: i32) -> (step: BuildStep)
    ensures
        step == if status == STATUS_OK {
            BuildStep::Ready(object)
        } else {
            BuildStep::ReadInfoLog(object)
        },
{
    if status != STATUS_OK {
        BuildStep::ReadInfoLog(object)
    } else {
        BuildStep::Ready(object)
    }
}

} // verus!
