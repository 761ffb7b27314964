//! The shell abstraction: the captured result of running a command, and the
//! trait a shell implementation provides to the engine's callers. Concrete
//! shells live outside the library, next to the process and environment
//! plumbing they need.

use crate::error::Error;
use vstd::prelude::*;

verus! {

/// The captured result of executing one command in a shell.
#[derive(Debug)]
pub struct ShellOutput {
    /// The command that was executed.
    pub command: String,
    /// Captured standard output.
    pub stdout: String,
    /// Captured standard error.
    pub stderr: String,
    /// The command's exit code.
    pub exit_code: i32,
    /// Whether the command succeeded, meaning its exit code was zero.
    pub success: bool,
}

impl ShellOutput {
    /// Packs execution results; success is derived from the exit code.
    pub fn new(command: String, stdout: String, stderr: String, exit_code: i32) -> (r: ShellOutput)
        ensures
            r.command == command,
            r.stdout == stdout,
            r.stderr == stderr,
            r.exit_code == exit_code,
            r.success == (exit_code == 0),
    {
        let success = exit_code == 0;
        ShellOutput { command, stdout, stderr, exit_code, success }
    }
}

/// What a shell implementation provides: running commands, the working
/// directory, environment variables, history, and command lookup. The
/// library states no behaviour for these operations; implementations live
/// with the process plumbing outside it.
pub trait Shell {
    /// The shell's name, such as "bash".
    fn name(&self) -> &str;

    /// Runs a command and captures its output.
    fn execute(&self, command: &str) -> Result<ShellOutput, Error>;

    /// The current working directory.
    fn cwd(&self) -> Result<String, Error>;

    /// Changes the working directory for later commands.
    fn set_cwd(&mut self, path: String) -> Result<(), Error>;

    /// Reads an environment variable.
    fn env(&self, key: &str) -> Option<String>;

    /// Sets an environment variable.
    fn set_env(&mut self, key: String, value: String) -> Result<(), Error>;

    /// The user's command history, most recent first; empty when the shell
    /// keeps none.
    fn history(&self) -> Result<Vec<String>, Error> {
        Ok(Vec::new())
    }

    /// Whether a command can be found in the search path.
    fn command_exists(&self, command: &str) -> Result<bool, Error>;
}

} // verus!
