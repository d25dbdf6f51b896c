//! The shell's error kinds and the messages they print.

use vstd::prelude::*;

verus! {

/// Everything that can go wrong between reading a line and finishing a command.
///
/// None of these ends the shell: the prompt loop reports the error and goes on.
#[derive(Debug, PartialEq, Eq)]
#[non_exhaustive]
pub enum ShellError {
    /// A directory that does not exist.
    DirectoryNotFound,
    /// The operation lacked the necessary privileges.
    PermissionDenied,
    /// A file that does not exist.
    FileNotFound,
    /// A path that is not valid.
    InvalidPath,
    /// The named command is neither a builtin nor an executable on the search path.
    CommandNotFound(String),
    /// A builtin could not make sense of its arguments.
    CommandParsingFailed,
    /// An I/O operation failed; the payload is the system's description.
    IoError(String),
    /// A call into the operating system failed; the payload is the system's description.
    OsError(String),
    /// An external program ended with this non-zero status.
    ExternalCommandFailed(i32),
    /// There was no command on the line.
    EmptyCommand,
    /// The command (first field) was given a path (second field) that is neither
    /// a file nor a directory.
    FileAndDirectoryNotFound(String, String),
    /// The home directory could not be determined.
    HomeDirNotFound,
    /// An environment variable that is not set.
    UnknownEnvVariable,
    /// The line ended inside a single-quoted text.
    UnmatchedSingleQuote,
    /// The line ended inside a double-quoted text.
    UnmatchedDoubleQuote,
}

/// Mathematical model of a [`ShellError`]: the same kinds, with texts as sequences.
pub enum ShellErrorView {
    DirectoryNotFound,
    PermissionDenied,
    FileNotFound,
    InvalidPath,
    CommandNotFound(Seq<char>),
    CommandParsingFailed,
    IoError(Seq<char>),
    OsError(Seq<char>),
    ExternalCommandFailed(int),
    EmptyCommand,
    FileAndDirectoryNotFound(Seq<char>, Seq<char>),
    HomeDirNotFound,
    UnknownEnvVariable,
    UnmatchedSingleQuote,
    UnmatchedDoubleQuote,
}

impl View for ShellError {
    type V = ShellErrorView;

    open spec fn view(&self) -> ShellErrorView {
        match *self {
            ShellError::DirectoryNotFound => ShellErrorView::DirectoryNotFound,
            ShellError::PermissionDenied => ShellErrorView::PermissionDenied,
            ShellError::FileNotFound => ShellErrorView::FileNotFound,
            ShellError::InvalidPath => ShellErrorView::InvalidPath,
            ShellError::CommandNotFound(name) => ShellErrorView::CommandNotFound(name@),
            ShellError::CommandParsingFailed => ShellErrorView::CommandParsingFailed,
            ShellError::IoError(cause) => ShellErrorView::IoError(cause@),
            ShellError::OsError(cause) => ShellErrorView::OsError(cause@),
            ShellError::ExternalCommandFailed(code) => ShellErrorView::ExternalCommandFailed(
                code as int,
            ),
            ShellError::EmptyCommand => ShellErrorView::EmptyCommand,
            ShellError::FileAndDirectoryNotFound(command, path) => {
                ShellErrorView::FileAndDirectoryNotFound(command@, path@)
            },
            ShellError::HomeDirNotFound => ShellErrorView::HomeDirNotFound,
            ShellError::UnknownEnvVariable => ShellErrorView::UnknownEnvVariable,
            ShellError::UnmatchedSingleQuote => ShellErrorView::UnmatchedSingleQuote,
            ShellError::UnmatchedDoubleQuote => ShellErrorView::UnmatchedDoubleQuote,
        }
    }
}

impl ShellErrorView {
    /// The fixed description of the error's kind, whatever its payload.
    pub open spec fn description(self) -> Seq<char> {
        match self {
            ShellErrorView::DirectoryNotFound => "directory not found"@,
            ShellErrorView::PermissionDenied => "permission denied"@,
            ShellErrorView::FileNotFound => "file not found"@,
            ShellErrorView::InvalidPath => "invalid path"@,
            ShellErrorView::CommandNotFound(_) => "not found"@,
            ShellErrorView::CommandParsingFailed => "command parsing failed"@,
            ShellErrorView::IoError(_) => "i/o error"@,
            ShellErrorView::OsError(_) => "os error"@,
            ShellErrorView::ExternalCommandFailed(_) => "external command failed"@,
            ShellErrorView::EmptyCommand => "empty command"@,
            ShellErrorView::FileAndDirectoryNotFound(_, _) => "No such file or directory"@,
            ShellErrorView::HomeDirNotFound => "Home dir not found"@,
            ShellErrorView::UnknownEnvVariable => "unkown env variable"@,
            ShellErrorView::UnmatchedSingleQuote => "unmatched single quote"@,
            ShellErrorView::UnmatchedDoubleQuote => "unmatched double quote"@,
        }
    }

    /// The line shown to the user: the command or path the error is about, where
    /// it has one, in front of the description, separated by `": "`.
    pub open spec fn message(self) -> Seq<char> {
        match self {
            ShellErrorView::IoError(cause) => cause,
            ShellErrorView::CommandNotFound(name) => name + ": "@ + self.description(),
            ShellErrorView::FileAndDirectoryNotFound(command, path) => command + ": "@ + path
                + ": "@ + self.description(),
            _ => self.description(),
        }
    }
}

impl ShellError {
    /// The fixed description of the error's kind.
    pub fn as_str(&self) -> (text: &'static str)
        ensures
            text@ == self@.description(),
    {
        match self {
            ShellError::DirectoryNotFound => "directory not found",
            ShellError::PermissionDenied => "permission denied",
            ShellError::FileNotFound => "file not found",
            ShellError::InvalidPath => "invalid path",
            ShellError::CommandNotFound(_) => "not found",
            ShellError::CommandParsingFailed => "command parsing failed",
            ShellError::IoError(_) => "i/o error",
            ShellError::OsError(_) => "os error",
            ShellError::ExternalCommandFailed(_) => "external command failed",
            ShellError::EmptyCommand => "empty command",
            ShellError::FileAndDirectoryNotFound(_, _) => "No such file or directory",
            ShellError::HomeDirNotFound => "Home dir not found",
            ShellError::UnknownEnvVariable => "unkown env variable",
            ShellError::UnmatchedSingleQuote => "unmatched single quote",
            ShellError::UnmatchedDoubleQuote => "unmatched double quote",
        }
    }

    /// The line shown to the user for this error.
    pub fn to_string(&self) -> (line: String)
        ensures
            line@ == self@.message(),
    {
        match self {
            ShellError::IoError(cause) => cause.clone(),
            ShellError::CommandNotFound(name) => {
                let mut line = name.clone();
                line.append(": ");
                line.append(self.as_str());
                line
            },
            ShellError::FileAndDirectoryNotFound(command, path) => {
                let mut line = command.clone();
                line.append(": ");
                line.append(path.as_str());
                line.append(": ");
                line.append(self.as_str());
                line
            },
            _ => self.as_str().to_owned(),
        }
    }
}

} // verus!
