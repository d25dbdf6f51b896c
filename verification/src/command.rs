//! The command model: what the parser produces and the dispatcher consumes.

use vstd::prelude::*;

use crate::error::{ShellError, ShellErrorView};

verus! {

/// What a command that ran without error has to show.
#[derive(Debug, PartialEq, Eq)]
pub enum CommandOutput {
    /// Nothing: whatever there was to print went out while the command ran.
    Success,
    /// A line of text.
    Text(String),
    /// A directory.
    Path(String),
}

/// Mathematical model of a [`CommandOutput`].
pub enum CommandOutputView {
    Success,
    Text(Seq<char>),
    Path(Seq<char>),
}

impl View for CommandOutput {
    type V = CommandOutputView;

    open spec fn view(&self) -> CommandOutputView {
        match *self {
            CommandOutput::Success => CommandOutputView::Success,
            CommandOutput::Text(text) => CommandOutputView::Text(text@),
            CommandOutput::Path(path) => CommandOutputView::Path(path@),
        }
    }
}

/// How the attempt to run an external program ended, as the host saw it.
#[derive(Debug, PartialEq, Eq)]
pub enum Launch {
    /// The program could not be started because no such executable exists.
    NotFound,
    /// Setting up the redirections, starting the program or waiting for it
    /// failed for another reason; the payload is the system's description.
    Failed(String),
    /// The program ran and ended, with this status where the system reports one.
    Exited(Option<i32>),
}

/// Mathematical model of a [`Launch`].
pub enum LaunchView {
    NotFound,
    Failed(Seq<char>),
    Exited(Option<int>),
}

impl View for Launch {
    type V = LaunchView;

    open spec fn view(&self) -> LaunchView {
        match *self {
            Launch::NotFound => LaunchView::NotFound,
            Launch::Failed(cause) => LaunchView::Failed(cause@),
            Launch::Exited(Some(code)) => LaunchView::Exited(Some(code as int)),
            Launch::Exited(None) => LaunchView::Exited(None),
        }
    }
}

/// What the outcome of a launch means for the command `program`.
///
/// A missing executable is a command that was not found, any other failure
/// is an I/O error, and a status other than zero is a failed command. A
/// program that ended with status zero, or without any status, succeeded.
pub open spec fn verdict(program: Seq<char>, launch: LaunchView) -> Result<(), ShellErrorView> {
    match launch {
        LaunchView::NotFound => Err(ShellErrorView::CommandNotFound(program)),
        LaunchView::Failed(cause) => Err(ShellErrorView::IoError(cause)),
        LaunchView::Exited(Some(code)) => if code != 0 {
            Err(ShellErrorView::ExternalCommandFailed(code))
        } else {
            Ok(())
        },
        LaunchView::Exited(None) => Ok(()),
    }
}

/// One parsed command line.
///
/// The parser never produces an empty `plain_command`; a command built by hand
/// may have one, and the dispatcher rejects it.
#[derive(Debug, PartialEq, Eq)]
pub struct ShellCommand {
    /// The program or builtin to run.
    pub plain_command: String,
    /// Its arguments, in the order they were written.
    pub args: Vec<String>,
    /// Where standard output goes, if not to the shell's own.
    pub stdout_redirect: Option<String>,
    /// Where standard error goes, if not to the shell's own.
    pub stderr_redirect: Option<String>,
}

/// Mathematical model of a [`ShellCommand`].
pub struct ShellCommandView {
    pub program: Seq<char>,
    pub arguments: Seq<Seq<char>>,
    pub stdout_redirect: Option<Seq<char>>,
    pub stderr_redirect: Option<Seq<char>>,
}

impl View for ShellCommand {
    type V = ShellCommandView;

    open spec fn view(&self) -> ShellCommandView {
        ShellCommandView {
            program: self.plain_command@,
            arguments: self.args.deep_view(),
            stdout_redirect: self.stdout_redirect.deep_view(),
            stderr_redirect: self.stderr_redirect.deep_view(),
        }
    }
}

impl Clone for ShellCommand {
    /// A copy that stands for the same command.
    fn clone(&self) -> (copy: ShellCommand)
        ensures
            copy@ == self@,
    {
        let mut args: Vec<String> = Vec::new();
        let mut i: usize = 0;
        while i < self.args.len()
            invariant
                i <= self.args.len(),
                args.deep_view() == self.args.deep_view().take(i as int),
            decreases self.args.len() - i,
        {
            let ghost copied = args.deep_view();
            args.push(self.args[i].clone());
            assert(args.deep_view() =~= copied.push(self.args[i as int]@));
            assert(self.args.deep_view().take(i + 1) =~= copied.push(self.args[i as int]@));
            i += 1;
        }
        assert(self.args.deep_view().take(i as int) =~= self.args.deep_view());
        ShellCommand {
            plain_command: self.plain_command.clone(),
            args,
            stdout_redirect: match &self.stdout_redirect {
                Some(path) => Some(path.clone()),
                None => None,
            },
            stderr_redirect: match &self.stderr_redirect {
                Some(path) => Some(path.clone()),
                None => None,
            },
        }
    }
}

impl ShellCommand {
    /// Puts a command together from its parts, unchanged.
    pub fn new(
        plain_command: String,
        args: Vec<String>,
        stdout_redirect: Option<String>,
        stderr_redirect: Option<String>,
    ) -> (command: ShellCommand)
        ensures
            command.plain_command == plain_command,
            command.args == args,
            command.stdout_redirect == stdout_redirect,
            command.stderr_redirect == stderr_redirect,
    {
        ShellCommand { plain_command, args, stdout_redirect, stderr_redirect }
    }

    /// Judges the run of this command as an external program, once the host
    /// has launched it and reports how that went.
    pub fn execute(&self, launch: Launch) -> (result: Result<(), ShellError>)
        ensures
            match verdict(self@.program, launch@) {
                Ok(_) => result is Ok,
                Err(error) => result matches Err(e) && e@ == error,
            },
    {
        match launch {
            Launch::NotFound => Err(ShellError::CommandNotFound(self.plain_command.clone())),
            Launch::Failed(cause) => Err(ShellError::IoError(cause)),
            Launch::Exited(Some(code)) => {
                if code != 0 {
                    Err(ShellError::ExternalCommandFailed(code))
                } else {
                    Ok(())
                }
            },
            Launch::Exited(None) => Ok(()),
        }
    }
}

/// Where the prompt loop sends what a finished command has to say.
#[derive(Debug, PartialEq, Eq)]
pub enum Report {
    /// There is nothing to say.
    Nothing,
    /// A line for standard output.
    Stdout(String),
    /// A line for standard error.
    Stderr(String),
    /// A line for the file at `path`, which is created or emptied first.
    File { path: String, line: String },
}

/// Mathematical model of a [`Report`].
pub enum ReportView {
    Nothing,
    Stdout(Seq<char>),
    Stderr(Seq<char>),
    File { path: Seq<char>, line: Seq<char> },
}

impl View for Report {
    type V = ReportView;

    open spec fn view(&self) -> ReportView {
        match *self {
            Report::Nothing => ReportView::Nothing,
            Report::Stdout(line) => ReportView::Stdout(line@),
            Report::Stderr(line) => ReportView::Stderr(line@),
            Report::File { path, line } => ReportView::File { path: path@, line: line@ },
        }
    }
}

/// The view of a dispatcher result: the views of its two sides.
pub open spec fn result_view(result: Result<CommandOutput, ShellError>) -> Result<
    CommandOutputView,
    ShellErrorView,
> {
    match result {
        Ok(output) => Ok(output@),
        Err(error) => Err(error@),
    }
}

/// Where the result of a command is shown.
///
/// An error goes to standard error as its message. The text or the path of a
/// builtin goes to the target of the command's `>` redirection where there is
/// one, and to standard output otherwise. A command that printed while it ran
/// leaves nothing to show.
pub open spec fn report_of(
    result: Result<CommandOutputView, ShellErrorView>,
    stdout_redirect: Option<Seq<char>>,
) -> ReportView {
    match result {
        Err(error) => ReportView::Stderr(error.message()),
        Ok(CommandOutputView::Success) => ReportView::Nothing,
        Ok(CommandOutputView::Text(line)) | Ok(CommandOutputView::Path(line)) => {
            match stdout_redirect {
                Some(path) => ReportView::File { path, line },
                None => ReportView::Stdout(line),
            }
        },
    }
}

/// Decides where the result of a command is shown; the prompt loop does the
/// printing and adds the newline.
pub fn report(result: &Result<CommandOutput, ShellError>, stdout_redirect: &Option<String>) -> (shown:
    Report)
    ensures
        shown@ == report_of(result_view(*result), stdout_redirect.deep_view()),
{
    match result {
        Err(error) => Report::Stderr(error.to_string()),
        Ok(CommandOutput::Success) => Report::Nothing,
        Ok(CommandOutput::Text(line)) | Ok(CommandOutput::Path(line)) => {
            match stdout_redirect {
                Some(path) => Report::File { path: path.clone(), line: line.clone() },
                None => Report::Stdout(line.clone()),
            }
        },
    }
}

} // verus!
