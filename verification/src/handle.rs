//! The handle to a running external process.

use crate::command::{kill_command, kill_line, CommandLine, Platform};
use crate::launch::{Launch, LaunchError, LaunchView, Phase};
use vstd::prelude::*;

verus! {

/// A handle to an external process that has been started and has dialled
/// back. It exists only for a launch that became ready, and the process it
/// names never changes.
#[derive(Debug, PartialEq, Eq)]
pub struct TermInstance {
    pid: u32,
    platform: Platform,
}

/// What a [`TermInstance`] says: the process, and the platform it runs on.
pub struct TermInstanceView {
    pub pid: u32,
    pub platform: Platform,
}

impl View for TermInstance {
    type V = TermInstanceView;

    closed spec fn view(&self) -> TermInstanceView {
        TermInstanceView { pid: self.pid, platform: self.platform }
    }
}

/// What a launch yields: the handle to its process where it became ready,
/// the cause where it was aborted, and `Unfinished` where it is still under
/// way.
pub open spec fn handle_of(launch: LaunchView) -> Result<TermInstanceView, LaunchError> {
    match launch.phase {
        Phase::Ready { port, pid } => Ok(TermInstanceView { pid, platform: launch.platform }),
        Phase::Aborted { cause } => Err(cause),
        _ => Err(LaunchError::Unfinished),
    }
}

/// The same result with the handle replaced by what it says.
pub open spec fn viewed(result: Result<TermInstance, LaunchError>) -> Result<
    TermInstanceView,
    LaunchError,
> {
    match result {
        Ok(term) => Ok(term@),
        Err(cause) => Err(cause),
    }
}

impl TermInstance {
    /// Makes the handle of a launch: there is one exactly where the launch
    /// became ready.
    pub fn new(launch: &Launch) -> (result: Result<TermInstance, LaunchError>)
        ensures
            viewed(result) == handle_of(launch@),
    {
        match launch.phase {
            Phase::Ready { port: _, pid } => Ok(TermInstance { pid, platform: launch.platform }),
            Phase::Aborted { cause } => Err(cause),
            _ => Err(LaunchError::Unfinished),
        }
    }

    /// The identifier of the process.
    pub fn pid(&self) -> (pid: u32)
        ensures
            pid == self@.pid,
    {
        self.pid
    }

    /// The platform whose conventions stop the process.
    pub fn platform(&self) -> (platform: Platform)
        ensures
            platform == self@.platform,
    {
        self.platform
    }

    /// The command line of the helper that stops the process at once. It
    /// depends on the handle alone and leaves it as it is, so asking again,
    /// or asking a copy, gives the same line, whether or not the process
    /// still runs.
    pub fn close(&self) -> (line: CommandLine)
        ensures
            line@ == kill_line(self@.platform, self@.pid),
    {
        kill_command(self.platform, self.pid)
    }
}

impl Clone for TermInstance {
    /// A second handle to the same process.
    fn clone(&self) -> (copy: TermInstance)
        ensures
            copy@ == self@,
    {
        TermInstance { pid: self.pid, platform: self.platform }
    }
}

/// Makes the handle of a launch, as [`TermInstance::new`] does.
pub fn new_term(launch: &Launch) -> (result: Result<TermInstance, LaunchError>)
    ensures
        viewed(result) == handle_of(launch@),
{
    TermInstance::new(launch)
}

} // verus!
