use vstd::prelude::*;

verus! {

/// The code a test run reports to the emulator on its exit port: the
/// runtime shell writes `value()` to the port; distinct from every code
/// the emulator uses itself, so the harness can tell the outcomes apart.
#[derive(Debug, Clone, Copy, PartialEq, Eq, Structural)]
pub enum QemuExitCode {
    Success,
    Failed,
}

impl QemuExitCode {
    /// The value written to the exit port for this outcome.
    pub open spec fn value_spec(self) -> u32 {
        match self {
            QemuExitCode::Success => 0x10,
            QemuExitCode::Failed => 0x11,
        }
    }

    /// Returns the value written to the exit port for this outcome.
    pub fn value(self) -> (r: u32)
        ensures
            r == self.value_spec(),
    {
        match self {
            QemuExitCode::Success => 0x10,
            QemuExitCode::Failed => 0x11,
        }
    }
}

} // verus!
