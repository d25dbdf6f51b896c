use rusty_shell::builtins::{Dispatch, HostReply, HostRequest, Shell, ShellCommandTypes};
use rusty_shell::command::{report, CommandOutput, Launch, Report, ShellCommand};
use rusty_shell::error::ShellError;
use rusty_shell::parser::parse_command;

fn line(text: &str) -> ShellCommand {
    parse_command(text.to_string()).unwrap()
}

fn shell() -> Shell {
    Shell::new("/work".to_string())
}

fn home() -> Option<String> {
    Some("/home/user".to_string())
}

#[test]
fn names_select_builtins() {
    assert_eq!(ShellCommandTypes::from_str("pwd"), Some(ShellCommandTypes::Pwd));
    assert_eq!(ShellCommandTypes::from_str("cd"), Some(ShellCommandTypes::Cd));
    assert_eq!(ShellCommandTypes::from_str("type"), Some(ShellCommandTypes::Type));
    assert_eq!(ShellCommandTypes::from_str("echo"), Some(ShellCommandTypes::Echo));
    assert_eq!(ShellCommandTypes::from_str("exit"), Some(ShellCommandTypes::Exit));
    assert_eq!(ShellCommandTypes::from_str("ls"), Some(ShellCommandTypes::Ls));
    assert_eq!(ShellCommandTypes::from_str("clear"), Some(ShellCommandTypes::Clear));
}

#[test]
fn other_names_select_nothing() {
    assert_eq!(ShellCommandTypes::from_str("cat"), None);
    assert_eq!(ShellCommandTypes::from_str("PWD"), None);
    assert_eq!(ShellCommandTypes::from_str("pwd "), None);
    assert_eq!(ShellCommandTypes::from_str(""), None);
    assert_eq!(ShellCommandTypes::from_str("chdir"), None);
}

#[test]
fn empty_program_is_rejected() {
    let command = ShellCommand::new(String::new(), vec!["x".to_string()], None, None);
    assert_eq!(
        shell().execute_command(command, home()),
        Dispatch::Done(Err(ShellError::EmptyCommand))
    );
}

#[test]
fn type_of_a_builtin() {
    assert_eq!(
        shell().execute_command(line("type cd"), home()),
        Dispatch::Done(Ok(CommandOutput::Text("cd is a shell builtin".to_string())))
    );
}

#[test]
fn type_of_something_else_is_searched() {
    let mut shell = shell();
    let step = shell.execute_command(line("type nonexistent_cmd_xyz"), home());
    assert_eq!(
        step,
        Dispatch::Ask(HostRequest::Search { name: "nonexistent_cmd_xyz".to_string() })
    );
    assert_eq!(
        shell.resume(HostReply::Searched {
            name: "nonexistent_cmd_xyz".to_string(),
            found: None
        }),
        Err(ShellError::CommandNotFound("nonexistent_cmd_xyz".to_string()))
    );
    assert_eq!(
        shell.resume(HostReply::Searched {
            name: "cat".to_string(),
            found: Some("/bin/cat".to_string())
        }),
        Ok(CommandOutput::Text("cat is /bin/cat".to_string()))
    );
}

#[test]
fn type_runs_its_arguments_together() {
    assert_eq!(
        shell().execute_command(line("type p w d"), home()),
        Dispatch::Done(Ok(CommandOutput::Text("pwd is a shell builtin".to_string())))
    );
}

#[test]
fn echo_joins_with_single_spaces() {
    assert_eq!(
        shell().execute_command(line("echo a   'b  c' d"), home()),
        Dispatch::Done(Ok(CommandOutput::Text("a b  c d".to_string())))
    );
    assert_eq!(
        shell().execute_command(line("echo"), home()),
        Dispatch::Done(Ok(CommandOutput::Text(String::new())))
    );
    assert_eq!(
        shell().echo("hi".to_string()),
        Ok(CommandOutput::Text("hi".to_string()))
    );
}

#[test]
fn pwd_answers_from_the_record() {
    let mut shell = shell();
    assert_eq!(shell.pwd(), Ok("/work".to_string()));
    assert_eq!(
        shell.execute_command(line("pwd"), home()),
        Dispatch::Done(Ok(CommandOutput::Path("/work".to_string())))
    );
}

#[test]
fn cd_asks_the_host() {
    assert_eq!(
        shell().execute_command(line("cd /tmp"), home()),
        Dispatch::Ask(HostRequest::ChangeDir { path: "/tmp".to_string() })
    );
    assert_eq!(
        shell().execute_command(line("cd"), home()),
        Dispatch::Ask(HostRequest::ChangeDir { path: String::new() })
    );
}

#[test]
fn cd_resolves_the_home_directory() {
    assert_eq!(
        shell().execute_command(line("cd ~"), home()),
        Dispatch::Ask(HostRequest::ChangeDir { path: "/home/user".to_string() })
    );
    assert_eq!(
        shell().execute_command(line("cd ~"), None),
        Dispatch::Done(Err(ShellError::HomeDirNotFound))
    );
    assert_eq!(
        shell().execute_command(line("cd ~/x"), None),
        Dispatch::Ask(HostRequest::ChangeDir { path: "~/x".to_string() })
    );
    assert_eq!(
        Shell::cd_target("~".to_string(), home()),
        Ok("/home/user".to_string())
    );
}

#[test]
fn failed_cd_leaves_the_directory() {
    let mut shell = shell();
    let reply = HostReply::DirChanged { path: "/nonexistent".to_string(), entered: None };
    assert_eq!(
        shell.resume(reply),
        Err(ShellError::FileAndDirectoryNotFound(
            "cd".to_string(),
            "/nonexistent".to_string()
        ))
    );
    assert_eq!(shell.pwd(), Ok("/work".to_string()));
}

#[test]
fn successful_cd_moves_the_directory() {
    let mut shell = shell();
    let reply = HostReply::DirChanged {
        path: "sub".to_string(),
        entered: Some("/work/sub".to_string()),
    };
    assert_eq!(shell.resume(reply), Ok(CommandOutput::Success));
    assert_eq!(shell.pwd(), Ok("/work/sub".to_string()));
    assert_eq!(shell.cd("/x", None).is_err(), true);
    assert_eq!(shell.pwd(), Ok("/work/sub".to_string()));
    assert_eq!(shell.cd("/tmp", Some("/tmp".to_string())), Ok(()));
    assert_eq!(shell.pwd(), Ok("/tmp".to_string()));
}

#[test]
fn pwd_is_stable_between_other_commands() {
    let mut shell = shell();
    for text in ["echo hi", "type ls", "ls -l", "exit x", "cd /nowhere", "frobnicate"] {
        let _ = shell.execute_command(line(text), home());
        assert_eq!(shell.pwd(), Ok("/work".to_string()));
    }
    let spawned = HostReply::Spawned { command: line("ls"), launch: Launch::Exited(Some(2)) };
    let _ = shell.resume(spawned);
    assert_eq!(shell.pwd(), Ok("/work".to_string()));
}

#[test]
fn exit_needs_a_status() {
    assert_eq!(
        shell().execute_command(line("exit 3"), home()),
        Dispatch::Ask(HostRequest::Exit { code: 3 })
    );
    assert_eq!(
        shell().execute_command(line("exit -1"), home()),
        Dispatch::Ask(HostRequest::Exit { code: -1 })
    );
    assert_eq!(
        shell().execute_command(line("exit 1 2"), home()),
        Dispatch::Ask(HostRequest::Exit { code: 12 })
    );
    assert_eq!(
        shell().execute_command(line("exit abc"), home()),
        Dispatch::Done(Err(ShellError::CommandParsingFailed))
    );
    assert_eq!(
        shell().execute_command(line("exit"), home()),
        Dispatch::Done(Err(ShellError::CommandParsingFailed))
    );
    assert_eq!(
        shell().execute_command(line("exit 2147483648"), home()),
        Dispatch::Done(Err(ShellError::CommandParsingFailed))
    );
}

#[test]
fn external_commands_are_spawned_as_written() {
    let command = line("grep -n x file > out.txt 2> err.txt");
    assert_eq!(
        shell().execute_command(command.clone(), home()),
        Dispatch::Ask(HostRequest::Spawn { command: command.clone() })
    );
    assert_eq!(
        shell().execute_external(command.clone()),
        Dispatch::Ask(HostRequest::Spawn { command })
    );
}

#[test]
fn passthrough_builtins_are_spawned() {
    let command = line("ls /nonexistent 2> err.txt");
    assert_eq!(
        shell().execute_command(command.clone(), home()),
        Dispatch::Ask(HostRequest::Spawn { command })
    );
    let command = line("clear");
    assert_eq!(
        shell().execute_command(command.clone(), home()),
        Dispatch::Ask(HostRequest::Spawn { command })
    );
    let odd = ShellCommand::new("x".to_string(), vec!["f".to_string()], None, None);
    let cat = ShellCommand::new("cat".to_string(), vec!["f".to_string()], None, None);
    assert_eq!(
        shell().execute_builtin(ShellCommandTypes::Cat, odd, home()),
        Dispatch::Ask(HostRequest::Spawn { command: cat })
    );
}

#[test]
fn spawn_outcomes_are_judged() {
    let mut shell = shell();
    let reply = |launch| HostReply::Spawned { command: line("prog a"), launch };
    assert_eq!(shell.resume(reply(Launch::Exited(Some(0)))), Ok(CommandOutput::Success));
    assert_eq!(shell.resume(reply(Launch::Exited(None))), Ok(CommandOutput::Success));
    assert_eq!(
        shell.resume(reply(Launch::Exited(Some(3)))),
        Err(ShellError::ExternalCommandFailed(3))
    );
    assert_eq!(
        shell.resume(reply(Launch::Exited(Some(-1)))),
        Err(ShellError::ExternalCommandFailed(-1))
    );
    assert_eq!(
        shell.resume(reply(Launch::NotFound)),
        Err(ShellError::CommandNotFound("prog".to_string()))
    );
    assert_eq!(
        shell.resume(reply(Launch::Failed("disk on fire".to_string()))),
        Err(ShellError::IoError("disk on fire".to_string()))
    );
}

#[test]
fn redirected_echo_is_written_to_the_file() {
    let command = line("echo hi > out.txt");
    let redirect = command.stdout_redirect.clone();
    let result = match shell().execute_command(command, home()) {
        Dispatch::Done(result) => result,
        Dispatch::Ask(request) => panic!("echo asked for {:?}", request),
    };
    assert_eq!(
        report(&result, &redirect),
        Report::File { path: "out.txt".to_string(), line: "hi".to_string() }
    );
}

#[test]
fn type_knows_every_builtin_by_name() {
    for name in ["pwd", "cd", "type", "echo", "exit", "ls", "clear"] {
        assert_eq!(
            shell().execute_command(line(&format!("type {}", name)), home()),
            Dispatch::Done(Ok(CommandOutput::Text(format!("{} is a shell builtin", name))))
        );
    }
    assert_eq!(
        shell().execute_command(line("type cat"), home()),
        Dispatch::Ask(HostRequest::Search { name: "cat".to_string() })
    );
}
