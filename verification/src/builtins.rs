//! The builtin commands and the dispatcher.
//!
//! The dispatcher decides; it does not act. Where a command needs something
//! from the operating system, [`Shell::execute_command`] answers with a
//! [`HostRequest`]. The host carries the request out and hands the outcome to
//! [`Shell::resume`] as a [`HostReply`], which yields the command's result.
//!
//! Three choices that a shell of this kind has to make are made as follows.
//!
//! * `ls`, `cat` and `clear` are builtins by name only: each is launched as
//!   the external program of that name, with the arguments and redirections
//!   of the command line, and judged like any other external program.
//! * `exit` insists on a status: without an argument that reads as an `i32`
//!   it fails and the shell goes on.
//! * `cd` that the host could not carry out fails with
//!   [`ShellError::FileAndDirectoryNotFound`], which names the command and
//!   the path.

use vstd::prelude::*;

use crate::command::{
    result_view, verdict, CommandOutput, CommandOutputView, Launch, LaunchView, ShellCommand,
    ShellCommandView,
};
use crate::error::{ShellError, ShellErrorView};
use crate::text::{concat_all, integer_i32, join, joined, parse_i32, str_eq};

verus! {

/// The commands that the shell knows by name.
#[derive(Debug, Clone, Copy, PartialEq, Eq, PartialOrd, Ord)]
#[non_exhaustive]
pub enum ShellCommandTypes {
    /// `pwd`: show the working directory.
    Pwd,
    /// `cd`: change the working directory.
    Cd,
    /// `echo`: show the arguments.
    Echo,
    /// `type`: say what a command name stands for.
    Type,
    /// `exit`: end the shell with a status.
    Exit,
    /// `ls`: list a directory.
    Ls,
    /// `cat`: show files. No name on a command line selects it.
    Cat,
    /// `clear`: clear the screen.
    Clear,
}

impl ShellCommandTypes {
    /// The builtin that a command name selects. Names are matched exactly:
    /// case matters, and no builtin has a second name.
    pub open spec fn classify(name: Seq<char>) -> Option<ShellCommandTypes> {
        if name == "pwd"@ {
            Some(ShellCommandTypes::Pwd)
        } else if name == "cd"@ {
            Some(ShellCommandTypes::Cd)
        } else if name == "type"@ {
            Some(ShellCommandTypes::Type)
        } else if name == "echo"@ {
            Some(ShellCommandTypes::Echo)
        } else if name == "exit"@ {
            Some(ShellCommandTypes::Exit)
        } else if name == "ls"@ {
            Some(ShellCommandTypes::Ls)
        } else if name == "clear"@ {
            Some(ShellCommandTypes::Clear)
        } else {
            None
        }
    }

    /// The name of the external program that stands behind `ls`, `cat` and
    /// `clear`, and the name by which each other builtin is called.
    pub open spec fn name(self) -> Seq<char> {
        match self {
            ShellCommandTypes::Pwd => "pwd"@,
            ShellCommandTypes::Cd => "cd"@,
            ShellCommandTypes::Echo => "echo"@,
            ShellCommandTypes::Type => "type"@,
            ShellCommandTypes::Exit => "exit"@,
            ShellCommandTypes::Ls => "ls"@,
            ShellCommandTypes::Cat => "cat"@,
            ShellCommandTypes::Clear => "clear"@,
        }
    }

    /// Looks a command name up among the builtins.
    pub fn from_str(command: &str) -> (kind: Option<ShellCommandTypes>)
        ensures
            kind == Self::classify(command@),
    {
        if str_eq(command, "pwd") {
            Some(ShellCommandTypes::Pwd)
        } else if str_eq(command, "cd") {
            Some(ShellCommandTypes::Cd)
        } else if str_eq(command, "type") {
            Some(ShellCommandTypes::Type)
        } else if str_eq(command, "echo") {
            Some(ShellCommandTypes::Echo)
        } else if str_eq(command, "exit") {
            Some(ShellCommandTypes::Exit)
        } else if str_eq(command, "ls") {
            Some(ShellCommandTypes::Ls)
        } else if str_eq(command, "clear") {
            Some(ShellCommandTypes::Clear)
        } else {
            None
        }
    }
}

/// Work that only the host process can do for the shell.
#[derive(Debug, PartialEq, Eq)]
pub enum HostRequest {
    /// Find the executable called `name` on the search path.
    Search { name: String },
    /// Make `path` the working directory of the process.
    ChangeDir { path: String },
    /// Run `command` as an external program, with its redirections, and wait
    /// for it to end.
    Spawn { command: ShellCommand },
    /// End the process with status `code`.
    Exit { code: i32 },
}

/// Mathematical model of a [`HostRequest`].
pub enum HostRequestView {
    Search { name: Seq<char> },
    ChangeDir { path: Seq<char> },
    Spawn { command: ShellCommandView },
    Exit { code: int },
}

impl View for HostRequest {
    type V = HostRequestView;

    open spec fn view(&self) -> HostRequestView {
        match *self {
            HostRequest::Search { name } => HostRequestView::Search { name: name@ },
            HostRequest::ChangeDir { path } => HostRequestView::ChangeDir { path: path@ },
            HostRequest::Spawn { command } => HostRequestView::Spawn { command: command@ },
            HostRequest::Exit { code } => HostRequestView::Exit { code: code as int },
        }
    }
}

/// What the dispatcher makes of a command: its result, or what it needs from
/// the host to get there.
#[derive(Debug, PartialEq, Eq)]
pub enum Dispatch {
    /// The command is finished.
    Done(Result<CommandOutput, ShellError>),
    /// The host has to act first.
    Ask(HostRequest),
}

/// Mathematical model of a [`Dispatch`].
pub enum DispatchView {
    Done(Result<CommandOutputView, ShellErrorView>),
    Ask(HostRequestView),
}

impl View for Dispatch {
    type V = DispatchView;

    open spec fn view(&self) -> DispatchView {
        match *self {
            Dispatch::Done(result) => DispatchView::Done(result_view(result)),
            Dispatch::Ask(request) => DispatchView::Ask(request@),
        }
    }
}

/// What the host found when it carried a request out. Each reply repeats what
/// was asked, so that it can be understood on its own.
#[derive(Debug, PartialEq, Eq)]
pub enum HostReply {
    /// `name` was searched for; `found` is where it is, if it is anywhere.
    Searched { name: String, found: Option<String> },
    /// The process was asked to enter `path`; `entered` is the directory it
    /// is in now if that worked, and `None` if `path` is no directory that
    /// can be entered.
    DirChanged { path: String, entered: Option<String> },
    /// `command` was launched, with the outcome `launch`.
    Spawned { command: ShellCommand, launch: Launch },
}

/// Mathematical model of a [`HostReply`].
pub enum HostReplyView {
    Searched { name: Seq<char>, found: Option<Seq<char>> },
    DirChanged { path: Seq<char>, entered: Option<Seq<char>> },
    Spawned { command: ShellCommandView, launch: LaunchView },
}

impl View for HostReply {
    type V = HostReplyView;

    open spec fn view(&self) -> HostReplyView {
        match *self {
            HostReply::Searched { name, found } => HostReplyView::Searched {
                name: name@,
                found: found.deep_view(),
            },
            HostReply::DirChanged { path, entered } => HostReplyView::DirChanged {
                path: path@,
                entered: entered.deep_view(),
            },
            HostReply::Spawned { command, launch } => HostReplyView::Spawned {
                command: command@,
                launch: launch@,
            },
        }
    }
}

/// The directory that `cd path` is to enter: the home directory for `~`, if
/// there is one, and `path` itself otherwise.
pub open spec fn cd_target(path: Seq<char>, home: Option<Seq<char>>) -> Option<Seq<char>> {
    if path == "~"@ {
        home
    } else {
        Some(path)
    }
}

/// What `type` makes of its arguments, which run together are the name asked
/// about: the answer for a builtin, a search for anything else.
pub open spec fn type_of(command: ShellCommandView) -> DispatchView {
    let name = command.arguments.flatten();
    if ShellCommandTypes::classify(name) is Some {
        DispatchView::Done(Ok(CommandOutputView::Text(name + " is a shell builtin"@)))
    } else {
        DispatchView::Ask(HostRequestView::Search { name })
    }
}

/// What a search means for `type name`.
pub open spec fn located_at(name: Seq<char>, found: Option<Seq<char>>) -> Result<
    CommandOutputView,
    ShellErrorView,
> {
    match found {
        Some(path) => Ok(CommandOutputView::Text(name + " is "@ + path)),
        None => Err(ShellErrorView::CommandNotFound(name)),
    }
}

/// What the outcome of a change of directory means for `cd path`.
pub open spec fn cd_result(path: Seq<char>, entered: Option<Seq<char>>) -> Result<
    (),
    ShellErrorView,
> {
    match entered {
        Some(_) => Ok(()),
        None => Err(ShellErrorView::FileAndDirectoryNotFound("cd"@, path)),
    }
}

/// The request to launch `command` under the program name `program`.
pub open spec fn spawn_as(program: Seq<char>, command: ShellCommandView) -> DispatchView {
    DispatchView::Ask(HostRequestView::Spawn { command: ShellCommandView { program, ..command } })
}

/// What the builtin `kind` does with `command`, in the shell whose working
/// directory is `current_dir` and whose home directory is `home`.
pub open spec fn builtin(
    kind: ShellCommandTypes,
    command: ShellCommandView,
    home: Option<Seq<char>>,
    current_dir: Seq<char>,
) -> DispatchView {
    match kind {
        ShellCommandTypes::Cd => match cd_target(command.arguments.flatten(), home) {
            Some(path) => DispatchView::Ask(HostRequestView::ChangeDir { path }),
            None => DispatchView::Done(Err(ShellErrorView::HomeDirNotFound)),
        },
        ShellCommandTypes::Pwd => DispatchView::Done(Ok(CommandOutputView::Path(current_dir))),
        ShellCommandTypes::Type => type_of(command),
        ShellCommandTypes::Echo => DispatchView::Done(
            Ok(CommandOutputView::Text(joined(command.arguments, " "@))),
        ),
        ShellCommandTypes::Ls | ShellCommandTypes::Cat | ShellCommandTypes::Clear => spawn_as(
            kind.name(),
            command,
        ),
        ShellCommandTypes::Exit => match integer_i32(command.arguments.flatten()) {
            Some(code) => DispatchView::Ask(HostRequestView::Exit { code: code as int }),
            None => DispatchView::Done(Err(ShellErrorView::CommandParsingFailed)),
        },
    }
}

/// What the shell does with `command`: nothing if it names no program, the
/// builtin if it names one, and a launch of the named program otherwise.
pub open spec fn dispatch(
    command: ShellCommandView,
    home: Option<Seq<char>>,
    current_dir: Seq<char>,
) -> DispatchView {
    if command.program.len() == 0 {
        DispatchView::Done(Err(ShellErrorView::EmptyCommand))
    } else {
        match ShellCommandTypes::classify(command.program) {
            Some(kind) => builtin(kind, command, home, current_dir),
            None => spawn_as(command.program, command),
        }
    }
}

/// The result of the command that waited for `reply`.
pub open spec fn conclusion(reply: HostReplyView) -> Result<CommandOutputView, ShellErrorView> {
    match reply {
        HostReplyView::Searched { name, found } => located_at(name, found),
        HostReplyView::DirChanged { path, entered } => match cd_result(path, entered) {
            Ok(_) => Ok(CommandOutputView::Success),
            Err(error) => Err(error),
        },
        HostReplyView::Spawned { command, launch } => match verdict(command.program, launch) {
            Ok(_) => Ok(CommandOutputView::Success),
            Err(error) => Err(error),
        },
    }
}

/// The working directory after `reply`, when it was `current_dir` before: the
/// directory that a `cd` entered, and `current_dir` in every other case.
pub open spec fn dir_after(current_dir: Seq<char>, reply: HostReplyView) -> Seq<char> {
    match reply {
        HostReplyView::DirChanged { entered: Some(dir), .. } => dir,
        _ => current_dir,
    }
}

/// The shell's state: the working directory it considers current.
///
/// The directory is recorded when the shell starts and after each change of
/// directory that the host reports; `pwd` answers from the record.
#[derive(Debug, PartialEq, Eq)]
pub struct Shell {
    current_dir: String,
}

impl View for Shell {
    type V = Seq<char>;

    /// The working directory on record.
    closed spec fn view(&self) -> Seq<char> {
        self.current_dir@
    }
}

impl Shell {
    /// A shell that starts in `current_dir`.
    pub fn new(current_dir: String) -> (shell: Shell)
        ensures
            shell@ == current_dir@,
    {
        Shell { current_dir }
    }

    /// Decides what `command` does. `home` is the user's home directory, if
    /// the host knows one. The shell's state stays as it is: only
    /// [`Shell::resume`] changes it.
    pub fn execute_command(&mut self, command: ShellCommand, home: Option<String>) -> (step:
        Dispatch)
        ensures
            step@ == dispatch(command@, home.deep_view(), old(self)@),
            final(self)@ == old(self)@,
    {
        if command.plain_command.as_str().is_empty() {
            return Dispatch::Done(Err(ShellError::EmptyCommand));
        }
        match ShellCommandTypes::from_str(command.plain_command.as_str()) {
            Some(kind) => self.execute_builtin(kind, command, home),
            None => self.execute_external(command),
        }
    }

    /// The working directory on record.
    pub fn pwd(&self) -> (dir: Result<String, ShellError>)
        ensures
            dir matches Ok(path) && path@ == self@,
    {
        Ok(self.current_dir.clone())
    }

    /// The directory that `cd path` is to enter, with `~` standing for `home`.
    pub fn cd_target(path: String, home: Option<String>) -> (target: Result<String, ShellError>)
        ensures
            match cd_target(path@, home.deep_view()) {
                Some(dir) => target matches Ok(t) && t@ == dir,
                None => target matches Err(e) && e@ == ShellErrorView::HomeDirNotFound,
            },
    {
        if str_eq(path.as_str(), "~") {
            match home {
                Some(dir) => Ok(dir),
                None => Err(ShellError::HomeDirNotFound),
            }
        } else {
            Ok(path)
        }
    }

    /// Takes note of how the change to `path` went. `entered` is the
    /// directory the process is in after a change that worked; the shell
    /// records it. After one that failed the record stays as it is.
    pub fn cd(&mut self, path: &str, entered: Option<String>) -> (result: Result<(), ShellError>)
        ensures
            match cd_result(path@, entered.deep_view()) {
                Ok(_) => result is Ok,
                Err(error) => result matches Err(e) && e@ == error,
            },
            final(self)@ == (match entered {
                Some(dir) => dir@,
                None => old(self)@,
            }),
    {
        match entered {
            Some(dir) => {
                self.current_dir = dir;
                Ok(())
            },
            None => Err(ShellError::FileAndDirectoryNotFound("cd".to_owned(), path.to_owned())),
        }
    }

    /// Says what the name in the arguments of `command` stands for, as far
    /// as the shell knows by itself.
    pub fn type_(&self, command: ShellCommand) -> (step: Dispatch)
        ensures
            step@ == type_of(command@),
    {
        let name = concat_all(&command.args);
        if ShellCommandTypes::from_str(name.as_str()).is_some() {
            let mut line = name;
            line.append(" is a shell builtin");
            Dispatch::Done(Ok(CommandOutput::Text(line)))
        } else {
            Dispatch::Ask(HostRequest::Search { name })
        }
    }

    /// Says what `name` stands for, once the host has searched for it.
    pub fn located(name: String, found: Option<String>) -> (result: Result<
        CommandOutput,
        ShellError,
    >)
        ensures
            result_view(result) == located_at(name@, found.deep_view()),
    {
        match found {
            Some(path) => {
                let mut line = name;
                line.append(" is ");
                line.append(path.as_str());
                Ok(CommandOutput::Text(line))
            },
            None => Err(ShellError::CommandNotFound(name)),
        }
    }

    /// Shows `arg`.
    pub fn echo(&self, arg: String) -> (result: Result<CommandOutput, ShellError>)
        ensures
            result_view(result) == Ok::<CommandOutputView, ShellErrorView>(
                CommandOutputView::Text(arg@),
            ),
    {
        Ok(CommandOutput::Text(arg))
    }

    /// Has `command` launched as the program `ls`.
    pub fn ls(&self, command: ShellCommand) -> (step: Dispatch)
        ensures
            step@ == spawn_as("ls"@, command@),
    {
        self.launch_as("ls", command)
    }

    /// Has `command` launched as the program `clear`.
    pub fn clear(&self, command: ShellCommand) -> (step: Dispatch)
        ensures
            step@ == spawn_as("clear"@, command@),
    {
        self.launch_as("clear", command)
    }

    /// Has `command` launched as the program `cat`.
    pub fn cat(&self, command: ShellCommand) -> (step: Dispatch)
        ensures
            step@ == spawn_as("cat"@, command@),
    {
        self.launch_as("cat", command)
    }

    fn launch_as(&self, program: &str, command: ShellCommand) -> (step: Dispatch)
        ensures
            step@ == spawn_as(program@, command@),
    {
        let ShellCommand { plain_command: _, args, stdout_redirect, stderr_redirect } = command;
        Dispatch::Ask(
            HostRequest::Spawn {
                command: ShellCommand::new(
                    program.to_owned(),
                    args,
                    stdout_redirect,
                    stderr_redirect,
                ),
            },
        )
    }

    /// Has `command` launched as the external program that it names.
    pub fn execute_external(&self, command: ShellCommand) -> (step: Dispatch)
        ensures
            step@ == spawn_as(command@.program, command@),
    {
        Dispatch::Ask(HostRequest::Spawn { command })
    }

    /// Decides what the builtin `cmd_type` does with `command`.
    pub fn execute_builtin(
        &mut self,
        cmd_type: ShellCommandTypes,
        command: ShellCommand,
        home: Option<String>,
    ) -> (step: Dispatch)
        ensures
            step@ == builtin(cmd_type, command@, home.deep_view(), old(self)@),
            final(self)@ == old(self)@,
    {
        match cmd_type {
            ShellCommandTypes::Cd => {
                match Self::cd_target(concat_all(&command.args), home) {
                    Ok(path) => Dispatch::Ask(HostRequest::ChangeDir { path }),
                    Err(error) => Dispatch::Done(Err(error)),
                }
            },
            ShellCommandTypes::Pwd => {
                match self.pwd() {
                    Ok(path) => Dispatch::Done(Ok(CommandOutput::Path(path))),
                    Err(error) => Dispatch::Done(Err(error)),
                }
            },
            ShellCommandTypes::Type => self.type_(command),
            ShellCommandTypes::Echo => {
                let arg = join(&command.args, " ");
                Dispatch::Done(self.echo(arg))
            },
            ShellCommandTypes::Ls => self.ls(command),
            ShellCommandTypes::Cat => self.cat(command),
            ShellCommandTypes::Clear => self.clear(command),
            ShellCommandTypes::Exit => {
                match parse_i32(concat_all(&command.args).as_str()) {
                    Some(code) => Dispatch::Ask(HostRequest::Exit { code }),
                    None => Dispatch::Done(Err(ShellError::CommandParsingFailed)),
                }
            },
        }
    }

    /// Finishes the command that waited for the host: yields its result and
    /// records the new working directory if the command was a `cd` that
    /// worked.
    pub fn resume(&mut self, reply: HostReply) -> (result: Result<CommandOutput, ShellError>)
        ensures
            result_view(result) == conclusion(reply@),
            final(self)@ == dir_after(old(self)@, reply@),
    {
        match reply {
            HostReply::Searched { name, found } => Self::located(name, found),
            HostReply::DirChanged { path, entered } => {
                match self.cd(path.as_str(), entered) {
                    Ok(_) => Ok(CommandOutput::Success),
                    Err(error) => Err(error),
                }
            },
            HostReply::Spawned { command, launch } => {
                match command.execute(launch) {
                    Ok(_) => Ok(CommandOutput::Success),
                    Err(error) => Err(error),
                }
            },
        }
    }
}

/// Every builtin but `cat` is selected by its name, and by that name only.
pub proof fn law_builtin_names(kind: ShellCommandTypes, name: Seq<char>)
    ensures
        kind != ShellCommandTypes::Cat ==> ShellCommandTypes::classify(kind.name()) == Some(kind),
        ShellCommandTypes::classify(name) == Some(kind) ==> name == kind.name(),
        ShellCommandTypes::classify(name) != Some(ShellCommandTypes::Cat),
{
    reveal_strlit("pwd");
    reveal_strlit("cd");
    reveal_strlit("type");
    reveal_strlit("echo");
    reveal_strlit("exit");
    reveal_strlit("ls");
    reveal_strlit("clear");
    assert("pwd"@.len() == 3 && "cd"@.len() == 2 && "ls"@.len() == 2 && "clear"@.len() == 5);
    assert("cd"@[0] == 'c' && "ls"@[0] == 'l');
    assert("type"@.len() == 4 && "echo"@.len() == 4 && "exit"@.len() == 4);
    assert("type"@[0] == 't' && "echo"@[1] == 'c' && "exit"@[1] == 'x');
}

/// `type` calls a builtin a builtin: asked about the name of any builtin that
/// a name selects, it answers `<name> is a shell builtin` by itself.
pub proof fn law_type_knows_builtins(kind: ShellCommandTypes, command: ShellCommandView)
    requires
        kind != ShellCommandTypes::Cat,
        command.arguments.flatten() == kind.name(),
    ensures
        type_of(command) == DispatchView::Done(
            Ok(CommandOutputView::Text(kind.name() + " is a shell builtin"@)),
        ),
{
    law_builtin_names(kind, kind.name());
}

/// A `cd` that the host could not carry out fails, and the shell's working
/// directory is what it was.
pub proof fn law_failed_cd_changes_nothing(current_dir: Seq<char>, path: Seq<char>)
    ensures
        conclusion(HostReplyView::DirChanged { path, entered: None }) == Err::<
            CommandOutputView,
            ShellErrorView,
        >(ShellErrorView::FileAndDirectoryNotFound("cd"@, path)),
        dir_after(current_dir, HostReplyView::DirChanged { path, entered: None }) == current_dir,
{
}

/// `pwd` gives the working directory on record, and the record changes with
/// nothing but a `cd` that the host carried out: whatever command is
/// dispatched and whatever else the host replies, `pwd` gives the same
/// answer before and after.
pub proof fn law_pwd_is_stable(
    current_dir: Seq<char>,
    command: ShellCommandView,
    home: Option<Seq<char>>,
    reply: HostReplyView,
)
    ensures
        builtin(ShellCommandTypes::Pwd, command, home, current_dir) == DispatchView::Done(
            Ok(CommandOutputView::Path(current_dir)),
        ),
        !(reply matches HostReplyView::DirChanged { entered: Some(_), .. }) ==> dir_after(
            current_dir,
            reply,
        ) == current_dir,
        reply matches HostReplyView::DirChanged { entered: Some(dir), .. } ==> dir_after(
            current_dir,
            reply,
        ) == dir,
{
}

} // verus!
