//! A scrolling text console for a pixel framebuffer.
//!
//! The console keeps a grid of coloured characters and decides what has to be
//! drawn; it does not touch the display itself. Every operation hands back the
//! drawing commands it calls for, in order, and the caller performs them.

use vstd::prelude::*;

pub mod console;
pub mod graphic;
pub mod laws;
pub mod render;
pub mod screen;
pub mod timer;

verus! {

/// How a run under the emulator ended.
#[derive(Debug, Clone, Copy, PartialEq, Eq, Structural)]
pub enum QemuExitCode {
    Success,
    Failed,
}

impl QemuExitCode {
    /// The number that the emulator's exit device is given for each outcome.
    pub open spec fn spec_code(self) -> u32 {
        match self {
            QemuExitCode::Success => 0x10,
            QemuExitCode::Failed => 0x11,
        }
    }

    /// The number that the emulator's exit device is given.
    #[verifier::when_used_as_spec(spec_code)]
    pub fn code(self) -> (code: u32)
        ensures
            code == self.spec_code(),
    {
        match self {
            QemuExitCode::Success => 0x10,
            QemuExitCode::Failed => 0x11,
        }
    }
}

/// Something that a test run can run.
pub trait Testable {
    fn run(&self);
}

/// Runs every test, in order, and reports success: a test that fails does
/// not return.
pub fn test_runner(tests: &[&dyn Testable]) -> (outcome: QemuExitCode)
    ensures
        outcome == QemuExitCode::Success,
{
    let mut i: usize = 0;
    while i < tests.len()
        invariant
            i <= tests.len(),
        decreases tests.len() - i,
    {
        tests[i].run();
        i += 1;
    }
    QemuExitCode::Success
}

} // verus!
