//! Turning an input line into a command.
//!
//! Parsing has two stages. The lexer splits the line into words, honouring
//! quotes and backslashes. The redirection scan then takes `>`, `1>` and `2>`
//! and their targets out of the words; what is left is the program and its
//! arguments.

use vstd::prelude::*;
use vstd::std_specs::convert::FromSpec;

use crate::command::{ShellCommand, ShellCommandView};
use crate::error::ShellError;
use crate::lexer::{
    escaped_in_double_quotes, lemma_blank_run, lemma_plain_run, lemma_single_quoted_run,
    lemma_words_not_empty, lex_from, plain, quote_mark, step, tokenize, words_of, Lexer, Quoting,
};
use crate::redirect::{
    is_operator, lemma_no_operator_no_redirect, lemma_redirect_keeps_words, redirect,
    take_redirect, Stream,
};
use crate::text::whitespace;

verus! {

/// Why a line is not a command.
#[derive(Debug, Clone, Copy, PartialEq, Eq)]
pub enum ParseError {
    /// The line ends inside `'...`.
    UnmatchedSingleQuote,
    /// The line ends inside `"...`.
    UnmatchedDoubleQuote,
    /// The line holds no program to run, or a redirection without a target.
    EmptyCommand,
}

impl From<ParseError> for ShellError {
    fn from(error: ParseError) -> (converted: ShellError) {
        match error {
            ParseError::UnmatchedSingleQuote => ShellError::UnmatchedSingleQuote,
            ParseError::UnmatchedDoubleQuote => ShellError::UnmatchedDoubleQuote,
            ParseError::EmptyCommand => ShellError::EmptyCommand,
        }
    }
}

impl vstd::std_specs::convert::FromSpecImpl<ParseError> for ShellError {
    open spec fn obeys_from_spec() -> bool {
        true
    }

    open spec fn from_spec(error: ParseError) -> ShellError {
        match error {
            ParseError::UnmatchedSingleQuote => ShellError::UnmatchedSingleQuote,
            ParseError::UnmatchedDoubleQuote => ShellError::UnmatchedDoubleQuote,
            ParseError::EmptyCommand => ShellError::EmptyCommand,
        }
    }
}

/// The command that a line stands for.
///
/// The line is split into words; the redirections of standard output, then
/// those of standard error, are taken out; the first word left is the program
/// and the others are its arguments. A line with no program, or with a
/// redirection operator as its last word, is an empty command.
pub open spec fn parse_line(input: Seq<char>) -> Result<ShellCommandView, ParseError> {
    match words_of(input) {
        Err(error) => Err(error),
        Ok(words) => match redirect(words, Stream::Stdout) {
            None => Err(ParseError::EmptyCommand),
            Some(out) => match redirect(out.rest, Stream::Stderr) {
                None => Err(ParseError::EmptyCommand),
                Some(err) => if err.rest.len() == 0 {
                    Err(ParseError::EmptyCommand)
                } else {
                    Ok(
                        ShellCommandView {
                            program: err.rest[0],
                            arguments: err.rest.skip(1),
                            stdout_redirect: out.target,
                            stderr_redirect: err.target,
                        },
                    )
                },
            },
        },
    }
}

/// Parses one input line into a command.
pub fn parse(input: &str) -> (result: Result<ShellCommand, ParseError>)
    ensures
        match parse_line(input@) {
            Ok(command) => result matches Ok(parsed) && parsed@ == command,
            Err(error) => result matches Err(e) && e == error,
        },
        result matches Ok(parsed) ==> well_formed(parsed@),
{
    proof {
        law_parsed_command_is_well_formed(input@);
    }
    let words = match tokenize(input) {
        Ok(words) => words,
        Err(error) => {
            return Err(error);
        },
    };
    let (words, stdout_redirect) = match take_redirect(&words, Stream::Stdout) {
        Some(scan) => scan,
        None => {
            return Err(ParseError::EmptyCommand);
        },
    };
    let (mut words, stderr_redirect) = match take_redirect(&words, Stream::Stderr) {
        Some(scan) => scan,
        None => {
            return Err(ParseError::EmptyCommand);
        },
    };
    if words.len() == 0 {
        return Err(ParseError::EmptyCommand);
    }
    let ghost left = words.deep_view();
    let plain_command = words.remove(0);
    assert(words.deep_view() =~= left.skip(1));
    Ok(ShellCommand::new(plain_command, words, stdout_redirect, stderr_redirect))
}

/// Parses one input line into a command, reporting failure as a shell error.
pub fn parse_command(input: String) -> (result: Result<ShellCommand, ShellError>)
    ensures
        match parse_line(input@) {
            Ok(command) => result matches Ok(parsed) && parsed@ == command,
            Err(error) => result matches Err(e) && e == ShellError::from_spec(error),
        },
        result matches Ok(parsed) ==> well_formed(parsed@),
{
    match parse(input.as_str()) {
        Ok(command) => Ok(command),
        Err(error) => Err(ShellError::from(error)),
    }
}

/// A word as one would type it without quoting: not empty, made of plain
/// characters, and not a redirection operator.
pub open spec fn bare_word(word: Seq<char>) -> bool {
    &&& word.len() > 0
    &&& forall|k: int| 0 <= k < word.len() ==> plain(#[trigger] word[k])
    &&& !is_operator(word, Stream::Stdout)
    &&& !is_operator(word, Stream::Stderr)
}

/// A line that is one bare word is the command that runs that word, with no
/// arguments and no redirection.
pub proof fn law_bare_word_is_program(word: Seq<char>)
    requires
        bare_word(word),
    ensures
        parse_line(word) == Ok::<ShellCommandView, ParseError>(
            ShellCommandView {
                program: word,
                arguments: Seq::empty(),
                stdout_redirect: None,
                stderr_redirect: None,
            },
        ),
{
    lemma_plain_run(Lexer::start(), word, 0, word.len() as int);
    assert(Seq::<char>::empty() + word.subrange(0, word.len() as int) =~= word);
    let words = seq![word];
    assert(words_of(word) == Ok::<Seq<Seq<char>>, ParseError>(Seq::empty().push(word)));
    assert(Seq::<Seq<char>>::empty().push(word) =~= words);
    lemma_no_operator_no_redirect(words, Stream::Stdout);
    lemma_no_operator_no_redirect(words, Stream::Stderr);
    assert(words.skip(1) =~= Seq::empty());
}

/// Text between single quotes reaches the command unchanged, whitespace,
/// backslashes and double quotes included: the line `program 'text'` runs
/// `program` with `text` as its one argument.
///
/// This holds of every text that can stand between single quotes (it holds no
/// single quote) but the empty one, which makes no word, and the three
/// operators, which redirect even when quoted.
pub proof fn law_single_quotes_keep_text(program: Seq<char>, text: Seq<char>)
    requires
        bare_word(program),
        forall|k: int| 0 <= k < text.len() ==> #[trigger] text[k] != '\'',
        text.len() > 0,
        !is_operator(text, Stream::Stdout),
        !is_operator(text, Stream::Stderr),
    ensures
        parse_line(program + seq![' ', '\''] + text + seq!['\'']) == Ok::<
            ShellCommandView,
            ParseError,
        >(
            ShellCommandView {
                program,
                arguments: seq![text],
                stdout_redirect: None,
                stderr_redirect: None,
            },
        ),
{
    let input = program + seq![' ', '\''] + text + seq!['\''];
    let n = program.len() as int;
    let m = text.len() as int;
    let opened = lemma_lex_up_to_quote(program, Quoting::Single, text + seq!['\'']);
    assert(input =~= program + seq![' ', '\''] + (text + seq!['\'']));
    assert forall|k: int| n + 2 <= k < n + 2 + m implies #[trigger] input[k] != '\'' by {
        assert(input[k] == text[k - n - 2]);
    }
    lemma_single_quoted_run(opened, input, n + 2, n + 2 + m);
    assert(input.subrange(n + 2, n + 2 + m) =~= text);
    assert(Seq::<char>::empty() + text =~= text);
    let quoted = Lexer { word: text, ..opened };
    assert(input[n + 2 + m] == '\'');
    assert(lex_from(quoted, input, n + 2 + m) == lex_from(
        quoted.quote(Quoting::Off),
        input,
        n + 3 + m,
    ));
    let words = seq![program, text];
    assert(Seq::<Seq<char>>::empty().push(program).push(text) =~= words);
    assert(words_of(input) == Ok::<Seq<Seq<char>>, ParseError>(words));
    lemma_no_operator_no_redirect(words, Stream::Stdout);
    lemma_no_operator_no_redirect(words, Stream::Stderr);
    assert(words.skip(1) =~= seq![text]);
}

/// A single quote that is never closed makes the whole line an error,
/// whatever follows it: the line `program 'text` is no command.
pub proof fn law_open_single_quote_fails(program: Seq<char>, text: Seq<char>)
    requires
        bare_word(program),
        forall|k: int| 0 <= k < text.len() ==> #[trigger] text[k] != '\'',
    ensures
        parse_line(program + seq![' ', '\''] + text) == Err::<ShellCommandView, ParseError>(
            ParseError::UnmatchedSingleQuote,
        ),
{
    let input = program + seq![' ', '\''] + text;
    let n = program.len() as int;
    let m = text.len() as int;
    let opened = lemma_lex_up_to_quote(program, Quoting::Single, text);
    assert forall|k: int| n + 2 <= k < n + 2 + m implies #[trigger] input[k] != '\'' by {
        assert(input[k] == text[k - n - 2]);
    }
    lemma_single_quoted_run(opened, input, n + 2, n + 2 + m);
}

/// On a line that starts with `program`, a space and a quote, the lexer
/// reaches the character after the quote with `program` as its one finished
/// word, inside that quotation.
proof fn lemma_lex_up_to_quote(program: Seq<char>, quoting: Quoting, tail: Seq<char>) -> (opened:
    Lexer)
    requires
        bare_word(program),
        quoting != Quoting::Off,
    ensures
        opened == (Lexer { done: seq![program], word: Seq::empty(), quoting }),
        lex_from(Lexer::start(), program + seq![' ', quote_mark(quoting)] + tail, 0) == lex_from(
            opened,
            program + seq![' ', quote_mark(quoting)] + tail,
            program.len() as int + 2,
        ),
{
    let input = program + seq![' ', quote_mark(quoting)] + tail;
    let n = program.len() as int;
    assert forall|k: int| 0 <= k < n implies plain(#[trigger] input[k]) by {
        assert(input[k] == program[k]);
    }
    lemma_plain_run(Lexer::start(), input, 0, n);
    assert(Seq::<char>::empty() + input.subrange(0, n) =~= program);
    let typed = Lexer { word: program, ..Lexer::start() };
    assert(input[n] == ' ');
    assert(input[n + 1] == quote_mark(quoting));
    assert(lex_from(typed, input, n) == lex_from(typed.separate(), input, n + 1));
    assert(lex_from(typed.separate(), input, n + 1) == lex_from(
        typed.separate().quote(quoting),
        input,
        n + 2,
    ));
    let opened = typed.separate().quote(quoting);
    assert(opened.done =~= seq![program]);
    opened
}

/// Between double quotes a backslash escapes `$`, `` ` ``, `"`, `\` and
/// newline, and is an ordinary character before anything else: the line
/// `program "\c"` runs `program` with what the pair leaves as its one
/// argument.
pub proof fn law_double_quotes_escape(program: Seq<char>, c: char)
    requires
        bare_word(program),
    ensures
        parse_line(program + seq![' ', '"'] + seq!['\\', c, '"']) == Ok::<
            ShellCommandView,
            ParseError,
        >(
            ShellCommandView {
                program,
                arguments: seq![escaped_in_double_quotes(c)],
                stdout_redirect: None,
                stderr_redirect: None,
            },
        ),
{
    let input = program + seq![' ', '"'] + seq!['\\', c, '"'];
    let n = program.len() as int;
    let opened = lemma_lex_up_to_quote(program, Quoting::Double, seq!['\\', c, '"']);
    assert(input[n + 2] == '\\');
    assert(input[n + 3] == c);
    assert(input[n + 4] == '"');
    let argument = escaped_in_double_quotes(c);
    let quoted = Lexer { word: argument, ..opened };
    assert(step(opened, input, n + 2).word =~= argument);
    assert(lex_from(opened, input, n + 2) == lex_from(quoted, input, n + 4));
    assert(lex_from(quoted, input, n + 4) == lex_from(
        quoted.quote(Quoting::Off),
        input,
        n + 5,
    ));
    let words = seq![program, argument];
    assert(Seq::<Seq<char>>::empty().push(program).push(argument) =~= words);
    assert(words_of(input) == Ok::<Seq<Seq<char>>, ParseError>(words));
    assert(argument[0] != '>' && argument[0] != '1' && argument[0] != '2');
    lemma_no_operator_no_redirect(words, Stream::Stdout);
    lemma_no_operator_no_redirect(words, Stream::Stderr);
    assert(words.skip(1) =~= seq![argument]);
}

/// A line of nothing but whitespace is an empty command.
pub proof fn law_blank_line_is_empty(input: Seq<char>)
    requires
        forall|k: int| 0 <= k < input.len() ==> whitespace(#[trigger] input[k]),
    ensures
        parse_line(input) == Err::<ShellCommandView, ParseError>(ParseError::EmptyCommand),
{
    lemma_blank_run(input, 0);
}

/// Whether `command` could have come from the parser: its program, its
/// arguments and its redirection targets are words with at least one
/// character, and neither the program nor an argument is a redirection
/// operator.
pub open spec fn well_formed(command: ShellCommandView) -> bool {
    &&& command.program.len() > 0
    &&& !is_operator(command.program, Stream::Stdout)
    &&& !is_operator(command.program, Stream::Stderr)
    &&& forall|k: int|
        0 <= k < command.arguments.len() ==> {
            &&& (#[trigger] command.arguments[k]).len() > 0
            &&& !is_operator(command.arguments[k], Stream::Stdout)
            &&& !is_operator(command.arguments[k], Stream::Stderr)
        }
    &&& command.stdout_redirect matches Some(target) ==> target.len() > 0
    &&& command.stderr_redirect matches Some(target) ==> target.len() > 0
}

/// Every command that the parser produces is well formed; in particular its
/// program is never empty.
pub proof fn law_parsed_command_is_well_formed(input: Seq<char>)
    ensures
        parse_line(input) matches Ok(command) ==> well_formed(command),
{
    if let Ok(command) = parse_line(input) {
        let words = words_of(input)->Ok_0;
        lemma_words_not_empty(Lexer::start(), input, 0);
        lemma_redirect_keeps_words(words, Stream::Stdout);
        let out = redirect(words, Stream::Stdout)->Some_0;
        lemma_redirect_keeps_words(out.rest, Stream::Stderr);
        let err = redirect(out.rest, Stream::Stderr)->Some_0;
        assert forall|k: int| 0 <= k < err.rest.len() implies {
            &&& (#[trigger] err.rest[k]).len() > 0
            &&& !is_operator(err.rest[k], Stream::Stdout)
            &&& !is_operator(err.rest[k], Stream::Stderr)
        } by {
            let w = err.rest[k];
            assert(out.rest.contains(w));
            let j = choose|j: int| 0 <= j < out.rest.len() && out.rest[j] == w;
            assert(words.contains(out.rest[j]));
            let i = choose|i: int| 0 <= i < words.len() && words[i] == w;
        }
        assert(command.program == err.rest[0]);
        assert forall|k: int| 0 <= k < command.arguments.len() implies {
            &&& (#[trigger] command.arguments[k]).len() > 0
            &&& !is_operator(command.arguments[k], Stream::Stdout)
            &&& !is_operator(command.arguments[k], Stream::Stderr)
        } by {
            assert(command.arguments[k] == err.rest[k + 1]);
        }
        if let Some(target) = command.stdout_redirect {
            let i = choose|i: int| 0 <= i < words.len() && words[i] == target;
        }
        if let Some(target) = command.stderr_redirect {
            assert(out.rest.contains(target));
            let j = choose|j: int| 0 <= j < out.rest.len() && out.rest[j] == target;
            assert(words.contains(out.rest[j]));
            let i = choose|i: int| 0 <= i < words.len() && words[i] == target;
        }
    }
}

} // verus!
