//! Mapping what the spawner reports back to the uniform result channel.
//!
//! The spawner is an operating-system capability outside this library: it
//! either fails to create the process, or runs it to completion and reports
//! how it ended. This module turns that report into the library's single
//! success-or-failure result: exit status zero is the only success.

use vstd::prelude::*;
use crate::command::CommandError;
use crate::command::NormalizedCommand;

verus! {

/// What the spawn capability reports for one attempt: execution is atomic
/// from the caller's perspective, so these are the only outcomes.
#[derive(Debug, Clone, PartialEq, Eq)]
pub enum SpawnOutcome {
    /// The process could not be created; carries the OS error text.
    CouldNotStart(String),
    /// The process ran to completion and exited with this status code.
    Exited(i32),
    /// The process ended without an exit code (platform-specific abnormal
    /// termination, such as death by signal).
    Terminated,
}

/// Maps the spawner's report for `command` to the uniform result.
///
/// Exit status zero, and it alone, is success. Every failure carries the
/// exact command that was attempted, and the exact exit status or the OS
/// error text, so the caller can tell "could not run" from "ran but
/// failed".
pub fn conclude(command: NormalizedCommand, outcome: SpawnOutcome) -> (r: Result<
    (),
    CommandError,
>)
    ensures
        r is Ok <==> outcome == SpawnOutcome::Exited(0i32),
        outcome matches SpawnOutcome::CouldNotStart(e) ==> r == Err::<(), CommandError>(
            CommandError::SpawnError { program: command.program, args: command.args, os_error: e },
        ),
        outcome matches SpawnOutcome::Exited(code) ==> code != 0 ==> r == Err::<(), CommandError>(
            CommandError::NonZeroExit { program: command.program, args: command.args, code },
        ),
        outcome == SpawnOutcome::Terminated ==> r == Err::<(), CommandError>(
            CommandError::AbnormalExit { program: command.program, args: command.args },
        ),
{
    match outcome {
        SpawnOutcome::Exited(code) => {
            if code == 0 {
                Ok(())
            } else {
                Err(CommandError::NonZeroExit { program: command.program, args: command.args, code })
            }
        },
        SpawnOutcome::CouldNotStart(os_error) => {
            Err(CommandError::SpawnError { program: command.program, args: command.args, os_error })
        },
        SpawnOutcome::Terminated => {
            Err(CommandError::AbnormalExit { program: command.program, args: command.args })
        },
    }
}

} // verus!
