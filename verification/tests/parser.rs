use rusty_shell::command::ShellCommand;
use rusty_shell::error::ShellError;
use rusty_shell::lexer::tokenize;
use rusty_shell::parser::{parse, parse_command, ParseError};
use rusty_shell::redirect::{is_redirect_operator, take_redirect, Stream};

fn words(line: &str) -> Vec<String> {
    tokenize(line).unwrap()
}

fn command(program: &str, args: &[&str], out: Option<&str>, err: Option<&str>) -> ShellCommand {
    ShellCommand::new(
        program.to_string(),
        args.iter().map(|a| a.to_string()).collect(),
        out.map(|t| t.to_string()),
        err.map(|t| t.to_string()),
    )
}

#[test]
fn single_word_is_the_program() {
    assert_eq!(parse("ls"), Ok(command("ls", &[], None, None)));
    assert_eq!(parse("  ls  "), Ok(command("ls", &[], None, None)));
}

#[test]
fn words_split_on_whitespace() {
    assert_eq!(words("echo  a\tb\u{a0}c"), vec!["echo", "a", "b", "c"]);
}

#[test]
fn single_quotes_keep_everything() {
    assert_eq!(parse("echo 'a  b'"), Ok(command("echo", &["a  b"], None, None)));
    assert_eq!(words(r#"echo 'a\b "c"'"#), vec!["echo", r#"a\b "c""#]);
}

#[test]
fn double_quotes_escape_a_few() {
    assert_eq!(words(r#"echo "a\"b""#), vec!["echo", r#"a"b"#]);
    assert_eq!(words(r#"echo "a\\b""#), vec!["echo", r"a\b"]);
    assert_eq!(words(r#"echo "a\nb""#), vec!["echo", r"a\nb"]);
    assert_eq!(words(r#"echo "a\$b\`c""#), vec!["echo", "a$b`c"]);
    assert_eq!(words("echo \"a\\\nb\""), vec!["echo", "a\nb"]);
    assert_eq!(words(r#"echo "it's""#), vec!["echo", "it's"]);
}

#[test]
fn backslash_outside_quotes_escapes_one_character() {
    assert_eq!(words(r"echo a\ b"), vec!["echo", "a b"]);
    assert_eq!(words(r"echo \'a\'"), vec!["echo", "'a'"]);
    assert_eq!(words(r"echo a\\b"), vec!["echo", r"a\b"]);
    assert_eq!(words("echo a\\"), vec!["echo", "a\\"]);
}

#[test]
fn unmatched_quotes_are_errors() {
    assert_eq!(parse("echo 'abc"), Err(ParseError::UnmatchedSingleQuote));
    assert_eq!(parse("echo \"abc"), Err(ParseError::UnmatchedDoubleQuote));
    assert_eq!(
        parse_command("echo 'abc".to_string()),
        Err(ShellError::UnmatchedSingleQuote)
    );
    assert_eq!(
        parse_command("echo \"abc".to_string()),
        Err(ShellError::UnmatchedDoubleQuote)
    );
}

#[test]
fn empty_lines_are_empty_commands() {
    assert_eq!(parse(""), Err(ParseError::EmptyCommand));
    assert_eq!(parse("   \t "), Err(ParseError::EmptyCommand));
    assert_eq!(parse("''"), Err(ParseError::EmptyCommand));
    assert_eq!(parse_command(" ".to_string()), Err(ShellError::EmptyCommand));
}

#[test]
fn redirections_leave_the_arguments() {
    assert_eq!(
        parse("echo hi > out.txt"),
        Ok(command("echo", &["hi"], Some("out.txt"), None))
    );
    assert_eq!(
        parse("echo hi 1> out.txt"),
        Ok(command("echo", &["hi"], Some("out.txt"), None))
    );
    assert_eq!(
        parse("ls /nonexistent 2> err.txt"),
        Ok(command("ls", &["/nonexistent"], None, Some("err.txt")))
    );
    assert_eq!(
        parse("cmd > a 2> b x"),
        Ok(command("cmd", &["x"], Some("a"), Some("b")))
    );
}

#[test]
fn last_redirection_wins() {
    assert_eq!(
        parse("cmd > a > b 1> c"),
        Ok(command("cmd", &[], Some("c"), None))
    );
}

#[test]
fn stdout_operators_are_taken_first() {
    assert_eq!(parse("a > 2> b"), Ok(command("a", &["b"], Some("2>"), None)));
    assert_eq!(parse("a 2> > b"), Err(ParseError::EmptyCommand));
}

#[test]
fn operator_without_target_is_an_empty_command() {
    assert_eq!(parse("echo hi >"), Err(ParseError::EmptyCommand));
    assert_eq!(parse("echo hi 2>"), Err(ParseError::EmptyCommand));
    assert_eq!(parse("echo '>'"), Err(ParseError::EmptyCommand));
}

#[test]
fn redirection_without_program_is_an_empty_command() {
    assert_eq!(parse("> out.txt"), Err(ParseError::EmptyCommand));
}

#[test]
fn backslash_pairs_between_double_quotes() {
    for code in 0..=0x7fu32 {
        let c = char::from_u32(code).unwrap();
        let line = format!("echo \"\\{}\"", c);
        let expected = if "$`\"\\\n".contains(c) {
            c.to_string()
        } else {
            format!("\\{}", c)
        };
        assert_eq!(parse(&line), Ok(command("echo", &[&expected], None, None)), "{:?}", line);
    }
}

#[test]
fn parsed_programs_are_never_empty() {
    for line in ["a", "'' a", "\"\" ''  x y", "a > b", "> b a", "'a b' c", "\\ "] {
        let parsed = parse(line).unwrap();
        assert!(!parsed.plain_command.is_empty(), "{:?}", line);
        assert!(parsed.args.iter().all(|arg| !arg.is_empty()), "{:?}", line);
    }
}

#[test]
fn operators_are_recognised_by_stream() {
    assert!(is_redirect_operator(">", Stream::Stdout));
    assert!(is_redirect_operator("1>", Stream::Stdout));
    assert!(!is_redirect_operator("2>", Stream::Stdout));
    assert!(is_redirect_operator("2>", Stream::Stderr));
    assert!(!is_redirect_operator(">", Stream::Stderr));
    assert!(!is_redirect_operator(">>", Stream::Stdout));
    assert!(!is_redirect_operator("", Stream::Stdout));
}

#[test]
fn take_redirect_scans_one_stream() {
    let words: Vec<String> = ["a", ">", "x", "2>", "y", "b"].iter().map(|w| w.to_string()).collect();
    assert_eq!(
        take_redirect(&words, Stream::Stdout),
        Some((
            vec!["a".to_string(), "2>".to_string(), "y".to_string(), "b".to_string()],
            Some("x".to_string())
        ))
    );
    assert_eq!(
        take_redirect(&words, Stream::Stderr),
        Some((
            vec!["a".to_string(), ">".to_string(), "x".to_string(), "b".to_string()],
            Some("y".to_string())
        ))
    );
    assert_eq!(take_redirect(&words[..2].to_vec(), Stream::Stdout), None);
    assert_eq!(take_redirect(&Vec::new(), Stream::Stdout), Some((Vec::new(), None)));
}

#[test]
fn parsing_is_repeatable() {
    let line = "grep 'a b' \"c\\\"d\" e\\ f > out 2> err";
    assert_eq!(parse(line), parse(line));
    assert_eq!(
        parse(line),
        Ok(command("grep", &["a b", "c\"d", "e f"], Some("out"), Some("err")))
    );
}
