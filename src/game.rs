//! The stages in which game processes run.
use vstd::prelude::*;

verus! {

/// When in a simulation step a process runs.
#[derive(Debug, Clone, Copy, PartialEq, Eq, Structural)]
pub enum ProcessStage {
    Early,
    Normal,
    Physics,
    Late,
}

impl Default for ProcessStage {
    /// Processes run in the normal stage unless they say otherwise.
    fn default() -> (r: Self)
        ensures
            r == ProcessStage::Normal,
    {
        ProcessStage::Normal
    }
}

} // verus!
