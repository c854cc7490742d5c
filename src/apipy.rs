use vstd::prelude::*;

verus! {

/// The handle of an interpreter child process, by its process id.
#[derive(Clone, Copy, Debug)]
pub struct PythonApiController {
    pub child_pid: u32,
}

impl PythonApiController {
    /// A handle with no child yet.
    pub fn new() -> (c: PythonApiController)
        ensures
            c.child_pid == 0,
    {
        PythonApiController { child_pid: 0 }
    }
}

} // verus!
