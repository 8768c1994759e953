//! Subprocesses as plain values: what to run, and what running it gave.

use vstd::prelude::*;

verus! {

/// A command to run: the program, its arguments, and how it is run.
#[derive(Clone, Debug, PartialEq, Eq)]
pub struct CommandLine {
    /// The program to run.
    pub program: String,
    /// The arguments, in order.
    pub args: Vec<String>,
    /// The directory to run in; `None` for the current one.
    pub current_dir: Option<String>,
    /// Whether the command writes to the caller's own output streams.
    pub inherit_output: bool,
}

/// What a `CommandLine` stands for.
pub struct CommandLineModel {
    pub program: Seq<char>,
    pub args: Seq<Seq<char>>,
    pub current_dir: Option<Seq<char>>,
    pub inherit_output: bool,
}

/// The views of `texts`.
pub open spec fn texts_view(texts: Seq<String>) -> Seq<Seq<char>> {
    texts.map_values(|s: String| s@)
}

/// A copy of `texts`.
pub fn copy_texts(texts: &Vec<String>) -> (out: Vec<String>)
    ensures
        texts_view(out@) == texts_view(texts@),
{
    let mut out: Vec<String> = Vec::new();
    let mut i: usize = 0;
    assert(texts_view(out@) =~= texts_view(texts@).subrange(0, 0));
    while i < texts.len()
        invariant
            i <= texts.len(),
            texts_view(out@) == texts_view(texts@).subrange(0, i as int),
        decreases texts.len() - i,
    {
        let ghost before = texts_view(out@);
        out.push(texts[i].clone());
        assert(texts_view(out@) =~= before.push(texts@[i as int]@));
        i += 1;
        assert(texts_view(out@) =~= texts_view(texts@).subrange(0, i as int));
    }
    assert(texts_view(texts@).subrange(0, texts.len() as int) =~= texts_view(texts@));
    out
}

impl View for CommandLine {
    type V = CommandLineModel;

    open spec fn view(&self) -> CommandLineModel {
        CommandLineModel {
            program: self.program@,
            args: texts_view(self.args@),
            current_dir: match self.current_dir {
                Some(dir) => Some(dir@),
                None => None,
            },
            inherit_output: self.inherit_output,
        }
    }
}

/// What a finished command left behind.
#[derive(Clone, Debug, PartialEq, Eq)]
pub struct CommandOutput {
    /// Whether the command exited with success.
    pub success: bool,
    /// What it wrote to its standard output.
    pub stdout: String,
    /// What it wrote to its standard error.
    pub stderr: String,
}

/// What a `CommandOutput` stands for.
pub struct CommandOutputModel {
    pub success: bool,
    pub stdout: Seq<char>,
    pub stderr: Seq<char>,
}

impl View for CommandOutput {
    type V = CommandOutputModel;

    open spec fn view(&self) -> CommandOutputModel {
        CommandOutputModel { success: self.success, stdout: self.stdout@, stderr: self.stderr@ }
    }
}

/// A command that did not do its work.
#[derive(Clone, Debug, PartialEq, Eq)]
pub enum CommandExecError {
    /// The command could not be run at all.
    Io {
        /// The command that was called.
        command: CommandLine,
        /// Why it could not be run.
        source: String,
    },
    /// The command ran and exited without success.
    ExecFail {
        /// The command that was called.
        command: CommandLine,
        /// What it left behind.
        output: CommandOutput,
    },
}

/// What a `CommandExecError` stands for.
pub enum CommandFailure {
    Io { command: CommandLineModel, source: Seq<char> },
    ExecFail { command: CommandLineModel, output: CommandOutputModel },
}

impl View for CommandExecError {
    type V = CommandFailure;

    open spec fn view(&self) -> CommandFailure {
        match self {
            CommandExecError::Io { command, source } => CommandFailure::Io {
                command: command@,
                source: source@,
            },
            CommandExecError::ExecFail { command, output } => CommandFailure::ExecFail {
                command: command@,
                output: output@,
            },
        }
    }
}

/// The command that a failure names.
pub open spec fn failed_command(f: CommandFailure) -> CommandLineModel {
    match f {
        CommandFailure::Io { command, source } => command,
        CommandFailure::ExecFail { command, output } => command,
    }
}

impl CommandExecError {
    /// The command which was called.
    pub fn command(&self) -> (c: &CommandLine)
        ensures
            c@ == failed_command(self@),
    {
        match self {
            CommandExecError::Io { command, .. } => command,
            CommandExecError::ExecFail { command, .. } => command,
        }
    }

    /// Gives up the error for the command which was called.
    pub fn into_command(self) -> (c: CommandLine)
        ensures
            c@ == failed_command(self@),
    {
        match self {
            CommandExecError::Io { command, .. } => command,
            CommandExecError::ExecFail { command, .. } => command,
        }
    }
}

/// What running a command gave, before it is judged: what the command left
/// behind, or why it could not be run.
pub open spec fn outcome_view(outcome: Result<CommandOutput, String>) -> Result<
    CommandOutputModel,
    Seq<char>,
> {
    match outcome {
        Ok(output) => Ok(output@),
        Err(source) => Err(source@),
    }
}

/// The verdict on a command: its output where it ran and exited with success,
/// else the failure, which names the command.
pub open spec fn judged(command: CommandLineModel, outcome: Result<CommandOutputModel, Seq<char>>) -> Result<
    CommandOutputModel,
    CommandFailure,
> {
    match outcome {
        Err(source) => Err(CommandFailure::Io { command, source }),
        Ok(output) => if output.success {
            Ok(output)
        } else {
            Err(CommandFailure::ExecFail { command, output })
        },
    }
}

/// Judges what running `command` gave: a command that could not be run, or that
/// exited without success, is an error that names the command.
pub fn execute_command(command: CommandLine, outcome: Result<CommandOutput, String>) -> (r: Result<
    CommandOutput,
    CommandExecError,
>)
    ensures
        match judged(command@, outcome_view(outcome)) {
            Ok(output) => r matches Ok(o) && o@ == output,
            Err(f) => r matches Err(e) && e@ == f,
        },
{
    match outcome {
        Err(source) => Err(CommandExecError::Io { command, source }),
        Ok(output) => if output.success {
            Ok(output)
        } else {
            Err(CommandExecError::ExecFail { command, output })
        },
    }
}

} // verus!
