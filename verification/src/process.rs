//! A process as the stages identify it.

use vstd::prelude::*;

verus! {

/// A process identity: pid **and** start time, so a recycled pid never
/// matches, plus the resolved executable path.
#[derive(Debug, PartialEq, Eq)]
pub struct ProcInfo {
    pub pid: u32,
    pub start_time: u64,
    pub exe: String,
}

impl Clone for ProcInfo {
    /// The same identity.
    fn clone(&self) -> (r: ProcInfo)
        ensures
            r == *self,
    {
        ProcInfo { pid: self.pid, start_time: self.start_time, exe: self.exe.clone() }
    }
}

} // verus!
