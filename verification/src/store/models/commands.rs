//! Command run modes as stored in the library document.

use vstd::prelude::*;

use crate::commands::CommandRunMode;

verus! {

/// How a stored command is run.
#[derive(Debug, Clone, Copy, PartialEq, Eq, Structural)]
pub enum RunMode {
    Run,
    Insert,
    RunInNewPane,
}

/// The stored form of a run mode.
pub open spec fn stored_run_mode(m: CommandRunMode) -> RunMode {
    match m {
        CommandRunMode::Run => RunMode::Run,
        CommandRunMode::Insert => RunMode::Insert,
        CommandRunMode::RunInNewPane => RunMode::RunInNewPane,
    }
}

/// The run mode a stored one names.
pub open spec fn command_run_mode(m: RunMode) -> CommandRunMode {
    match m {
        RunMode::Run => CommandRunMode::Run,
        RunMode::Insert => CommandRunMode::Insert,
        RunMode::RunInNewPane => CommandRunMode::RunInNewPane,
    }
}

impl RunMode {
    /// The stored form of a run mode.
    pub fn from_command(m: CommandRunMode) -> (r: Self)
        ensures
            r == stored_run_mode(m),
    {
        match m {
            CommandRunMode::Run => RunMode::Run,
            CommandRunMode::Insert => RunMode::Insert,
            CommandRunMode::RunInNewPane => RunMode::RunInNewPane,
        }
    }

    /// The run mode this stored one names.
    pub fn to_command(self) -> (r: CommandRunMode)
        ensures
            r == command_run_mode(self),
    {
        match self {
            RunMode::Run => CommandRunMode::Run,
            RunMode::Insert => CommandRunMode::Insert,
            RunMode::RunInNewPane => CommandRunMode::RunInNewPane,
        }
    }
}

} // verus!
