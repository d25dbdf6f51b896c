use rusty_shell::error::ShellError;
use rusty_shell::parser::ParseError;

#[test]
fn descriptions() {
    assert_eq!(ShellError::DirectoryNotFound.as_str(), "directory not found");
    assert_eq!(ShellError::PermissionDenied.as_str(), "permission denied");
    assert_eq!(ShellError::FileNotFound.as_str(), "file not found");
    assert_eq!(ShellError::InvalidPath.as_str(), "invalid path");
    assert_eq!(ShellError::CommandNotFound("x".to_string()).as_str(), "not found");
    assert_eq!(ShellError::CommandParsingFailed.as_str(), "command parsing failed");
    assert_eq!(ShellError::IoError("x".to_string()).as_str(), "i/o error");
    assert_eq!(ShellError::OsError("x".to_string()).as_str(), "os error");
    assert_eq!(ShellError::ExternalCommandFailed(2).as_str(), "external command failed");
    assert_eq!(ShellError::EmptyCommand.as_str(), "empty command");
    assert_eq!(
        ShellError::FileAndDirectoryNotFound("cd".to_string(), "/x".to_string()).as_str(),
        "No such file or directory"
    );
    assert_eq!(ShellError::HomeDirNotFound.as_str(), "Home dir not found");
    assert_eq!(ShellError::UnknownEnvVariable.as_str(), "unkown env variable");
    assert_eq!(ShellError::UnmatchedSingleQuote.as_str(), "unmatched single quote");
    assert_eq!(ShellError::UnmatchedDoubleQuote.as_str(), "unmatched double quote");
}

#[test]
fn messages_name_their_subject() {
    assert_eq!(
        ShellError::CommandNotFound("frob".to_string()).to_string(),
        "frob: not found"
    );
    assert_eq!(
        ShellError::FileAndDirectoryNotFound("cd".to_string(), "/x".to_string()).to_string(),
        "cd: /x: No such file or directory"
    );
    assert_eq!(
        ShellError::IoError("broken pipe".to_string()).to_string(),
        "broken pipe"
    );
}

#[test]
fn other_messages_are_the_description() {
    assert_eq!(ShellError::OsError("x".to_string()).to_string(), "os error");
    assert_eq!(ShellError::EmptyCommand.to_string(), "empty command");
    assert_eq!(
        ShellError::ExternalCommandFailed(7).to_string(),
        "external command failed"
    );
    assert_eq!(ShellError::HomeDirNotFound.to_string(), "Home dir not found");
}

#[test]
fn parse_errors_convert() {
    assert_eq!(
        ShellError::from(ParseError::UnmatchedSingleQuote),
        ShellError::UnmatchedSingleQuote
    );
    assert_eq!(
        ShellError::from(ParseError::UnmatchedDoubleQuote),
        ShellError::UnmatchedDoubleQuote
    );
    assert_eq!(ShellError::from(ParseError::EmptyCommand), ShellError::EmptyCommand);
}
