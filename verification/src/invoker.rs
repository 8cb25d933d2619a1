use vstd::prelude::*;

verus! {

/// The captured outcome of one completed interpreter invocation: the byte
/// streams and the exit status. A non-zero exit status is not by itself a
/// failure; higher layers decide what empty or malformed output means.
pub struct RawOutput {
    /// The process exit code, where the platform reported one.
    pub status: Option<i32>,
    /// Everything the process wrote to standard output.
    pub stdout: Vec<u8>,
    /// Everything the process wrote to standard error.
    pub stderr: Vec<u8>,
}

/// The one failure a process invocation itself can signal: the executable
/// could not be found or started at all.
#[derive(Clone, Copy, Debug, PartialEq, Eq, Structural)]
pub enum ProcessError {
    /// The interpreter process could not be launched.
    LaunchFailed,
}

/// A port to the operating system's process machinery: runs the scripting
/// interpreter once with the given arguments and captures its output.
///
/// This crate never spawns a process itself; the embedding program
/// implements this trait (and tests implement it with stubs). Nothing is
/// assumed about the outcome of a run: every caller in this crate states
/// what holds of its own result whatever the invoker returned. No timeout
/// is imposed here; an implementation is free to add one at this boundary
/// and report an expiry as it sees fit.
pub trait ProcessInvoker {
    /// Runs the interpreter once with `args` and waits for it to exit.
    fn run(&self, args: &Vec<String>) -> Result<RawOutput, ProcessError>;
}

} // verus!
