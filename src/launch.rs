//! How the backend process is configured before it is spawned.

use vstd::prelude::*;
use crate::paths::BackendLocation;
use crate::platform::Platform;

verus! {

/// Process creation flag that keeps a console window from appearing.
pub const CREATE_NO_WINDOW: u32 = 0x0800_0000;

/// Creation flags asked for on platform `p`, if it takes any.
pub open spec fn creation_flags_for(p: Platform) -> Option<u32> {
    match p {
        Platform::Windows => Some(CREATE_NO_WINDOW),
        Platform::Unix => None,
    }
}

/// Everything the spawn step needs to start the backend.
pub struct LaunchPlan {
    /// Executable to run.
    pub program: String,
    /// Working directory of the new process.
    pub working_dir: String,
    /// Whether standard output goes to the parent's own.
    pub inherit_stdout: bool,
    /// Whether standard error goes to the parent's own.
    pub inherit_stderr: bool,
    /// Platform process-creation flags, where the platform has them.
    pub creation_flags: Option<u32>,
}

/// The launch configuration for the backend found at `loc`: it runs in the
/// directory that holds it, shares the parent's output streams, and on
/// Windows opens no console window.
pub fn launch_plan(p: Platform, loc: &BackendLocation) -> (r: LaunchPlan)
    ensures
        r.program@ == loc.executable@,
        r.working_dir@ == loc.directory@,
        r.inherit_stdout,
        r.inherit_stderr,
        r.creation_flags == creation_flags_for(p),
{
    let creation_flags = match p {
        Platform::Windows => Some(CREATE_NO_WINDOW),
        Platform::Unix => None,
    };
    LaunchPlan {
        program: loc.executable.clone(),
        working_dir: loc.directory.clone(),
        inherit_stdout: true,
        inherit_stderr: true,
        creation_flags,
    }
}

} // verus!
