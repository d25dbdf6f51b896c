//! The lexer: splitting a line into words.
//!
//! Words are separated by whitespace. Quotes and backslashes take the special
//! meaning from the characters they cover, so that a word can hold
//! whitespace, quotes and backslashes itself.

use vstd::prelude::*;

use crate::parser::ParseError;
use crate::text::{is_whitespace, push_char, to_chars, whitespace};

verus! {

/// Which quotation the lexer is inside.
#[derive(Debug, Clone, Copy, PartialEq, Eq)]
pub enum Quoting {
    /// Outside any quotes.
    Off,
    /// Between single quotes: every character stands for itself.
    Single,
    /// Between double quotes: only the backslash keeps a special meaning.
    Double,
}

/// The lexer's state between two steps.
pub struct Lexer {
    /// The words completed so far.
    pub done: Seq<Seq<char>>,
    /// The word under construction.
    pub word: Seq<char>,
    /// The quotation the next character is read in.
    pub quoting: Quoting,
}

impl Lexer {
    /// The state before the first character.
    pub open spec fn start() -> Lexer {
        Lexer { done: Seq::empty(), word: Seq::empty(), quoting: Quoting::Off }
    }

    /// `c` becomes part of the current word.
    pub open spec fn emit(self, c: char) -> Lexer {
        Lexer { word: self.word.push(c), ..self }
    }

    /// A quote opens or closes.
    pub open spec fn quote(self, quoting: Quoting) -> Lexer {
        Lexer { quoting, ..self }
    }

    /// An unquoted separator ends the current word, if there is one.
    pub open spec fn separate(self) -> Lexer {
        if self.word.len() > 0 {
            Lexer { done: self.done.push(self.word), word: Seq::empty(), ..self }
        } else {
            self
        }
    }

    /// All the words, the one under construction included.
    pub open spec fn words(self) -> Seq<Seq<char>> {
        self.separate().done
    }
}

/// The characters that a backslash escapes between double quotes.
pub open spec fn escapable_in_double_quotes(c: char) -> bool {
    c == '$' || c == '`' || c == '"' || c == '\\' || c == '\n'
}

/// How many characters the step at position `i` takes: two where a backslash
/// takes its successor along, one otherwise.
pub open spec fn stride(input: Seq<char>, i: int, quoting: Quoting) -> int {
    if input[i] == '\\' && quoting != Quoting::Single && i + 1 < input.len() {
        2
    } else {
        1
    }
}

/// One step of the lexer, at position `i` of `input`.
///
/// * Between single quotes everything but the closing quote is literal.
/// * Between double quotes a backslash escapes `$`, `` ` ``, `"`, `\` and
///   newline; before any other character it stands for itself, and so does a
///   single quote.
/// * Outside quotes a backslash makes the next character literal, quotes
///   open a quotation, and whitespace ends the current word.
///
/// A backslash that ends the input stands for itself.
pub open spec fn step(lexer: Lexer, input: Seq<char>, i: int) -> Lexer {
    let c = input[i];
    match lexer.quoting {
        Quoting::Single => if c == '\'' {
            lexer.quote(Quoting::Off)
        } else {
            lexer.emit(c)
        },
        Quoting::Double => if c == '"' {
            lexer.quote(Quoting::Off)
        } else if c == '\\' && i + 1 < input.len() {
            if escapable_in_double_quotes(input[i + 1]) {
                lexer.emit(input[i + 1])
            } else {
                lexer.emit('\\').emit(input[i + 1])
            }
        } else {
            lexer.emit(c)
        },
        Quoting::Off => if c == '\\' && i + 1 < input.len() {
            lexer.emit(input[i + 1])
        } else if c == '\'' {
            lexer.quote(Quoting::Single)
        } else if c == '"' {
            lexer.quote(Quoting::Double)
        } else if whitespace(c) {
            lexer.separate()
        } else {
            lexer.emit(c)
        },
    }
}

/// The lexer's state at the end of `input`, when it is in state `lexer` at
/// position `i`.
pub open spec fn lex_from(lexer: Lexer, input: Seq<char>, i: int) -> Lexer
    decreases input.len() - i,
{
    if 0 <= i < input.len() {
        lex_from(step(lexer, input, i), input, i + stride(input, i, lexer.quoting))
    } else {
        lexer
    }
}

/// The words of a line, or the quote that was left open.
pub open spec fn words_of(input: Seq<char>) -> Result<Seq<Seq<char>>, ParseError> {
    let end = lex_from(Lexer::start(), input, 0);
    match end.quoting {
        Quoting::Single => Err(ParseError::UnmatchedSingleQuote),
        Quoting::Double => Err(ParseError::UnmatchedDoubleQuote),
        Quoting::Off => Ok(end.words()),
    }
}

/// Splits a line into words.
pub fn tokenize(input: &str) -> (result: Result<Vec<String>, ParseError>)
    ensures
        match words_of(input@) {
            Ok(words) => result matches Ok(tokens) && tokens.deep_view() == words,
            Err(error) => result == Err::<Vec<String>, ParseError>(error),
        },
{
    let chars = to_chars(input);
    let mut tokens: Vec<String> = Vec::new();
    let mut current = String::new();
    let mut quoting = Quoting::Off;
    let mut i: usize = 0;
    assert(tokens.deep_view() =~= Seq::empty());
    while i < chars.len()
        invariant
            i <= chars.len(),
            chars@ == input@,
            lex_from(Lexer::start(), input@, 0) == lex_from(
                Lexer { done: tokens.deep_view(), word: current@, quoting },
                input@,
                i as int,
            ),
        decreases chars.len() - i,
    {
        let ghost before = Lexer { done: tokens.deep_view(), word: current@, quoting };
        let c = chars[i];
        let mut taken: usize = 1;
        match quoting {
            Quoting::Single => {
                if c == '\'' {
                    quoting = Quoting::Off;
                } else {
                    push_char(&mut current, c);
                }
            },
            Quoting::Double => {
                if c == '"' {
                    quoting = Quoting::Off;
                } else if c == '\\' && i + 1 < chars.len() {
                    let next = chars[i + 1];
                    if !(next == '$' || next == '`' || next == '"' || next == '\\' || next
                        == '\n') {
                        push_char(&mut current, '\\');
                    }
                    push_char(&mut current, next);
                    taken = 2;
                } else {
                    push_char(&mut current, c);
                }
            },
            Quoting::Off => {
                if c == '\\' && i + 1 < chars.len() {
                    push_char(&mut current, chars[i + 1]);
                    taken = 2;
                } else if c == '\'' {
                    quoting = Quoting::Single;
                } else if c == '"' {
                    quoting = Quoting::Double;
                } else if is_whitespace(c) {
                    if !current.as_str().is_empty() {
                        let ghost earlier = tokens.deep_view();
                        tokens.push(current);
                        current = String::new();
                        assert(tokens.deep_view() =~= earlier.push(before.word));
                    }
                } else {
                    push_char(&mut current, c);
                }
            },
        }
        assert(Lexer { done: tokens.deep_view(), word: current@, quoting } == step(
            before,
            input@,
            i as int,
        ));
        assert(taken == stride(input@, i as int, before.quoting));
        i += taken;
    }
    match quoting {
        Quoting::Single => Err(ParseError::UnmatchedSingleQuote),
        Quoting::Double => Err(ParseError::UnmatchedDoubleQuote),
        Quoting::Off => {
            if !current.as_str().is_empty() {
                let ghost earlier = tokens.deep_view();
                let ghost last = current@;
                tokens.push(current);
                assert(tokens.deep_view() =~= earlier.push(last));
            }
            Ok(tokens)
        },
    }
}

/// A character with no special meaning to the lexer.
pub open spec fn plain(c: char) -> bool {
    !whitespace(c) && c != '\\' && c != '\'' && c != '"'
}

/// Outside quotes, a run of plain characters goes into the current word
/// unchanged.
pub proof fn lemma_plain_run(lexer: Lexer, input: Seq<char>, i: int, j: int)
    requires
        0 <= i <= j <= input.len(),
        lexer.quoting == Quoting::Off,
        forall|k: int| i <= k < j ==> plain(#[trigger] input[k]),
    ensures
        lex_from(lexer, input, i) == lex_from(
            Lexer { word: lexer.word + input.subrange(i, j), ..lexer },
            input,
            j,
        ),
    decreases j - i,
{
    if i == j {
        assert(lexer.word + input.subrange(i, j) =~= lexer.word);
    } else {
        assert(plain(input[i]));
        lemma_plain_run(lexer.emit(input[i]), input, i + 1, j);
        assert(lexer.word.push(input[i]) + input.subrange(i + 1, j) =~= lexer.word
            + input.subrange(i, j));
    }
}

/// Between single quotes, a run without a single quote goes into the current
/// word unchanged.
pub proof fn lemma_single_quoted_run(lexer: Lexer, input: Seq<char>, i: int, j: int)
    requires
        0 <= i <= j <= input.len(),
        lexer.quoting == Quoting::Single,
        forall|k: int| i <= k < j ==> #[trigger] input[k] != '\'',
    ensures
        lex_from(lexer, input, i) == lex_from(
            Lexer { word: lexer.word + input.subrange(i, j), ..lexer },
            input,
            j,
        ),
    decreases j - i,
{
    if i == j {
        assert(lexer.word + input.subrange(i, j) =~= lexer.word);
    } else {
        assert(input[i] != '\'');
        lemma_single_quoted_run(lexer.emit(input[i]), input, i + 1, j);
        assert(lexer.word.push(input[i]) + input.subrange(i + 1, j) =~= lexer.word
            + input.subrange(i, j));
    }
}

/// The character that opens and closes a quotation.
pub open spec fn quote_mark(quoting: Quoting) -> char {
    if quoting == Quoting::Double {
        '"'
    } else {
        '\''
    }
}

/// What a backslash and the character `c` after it leave between double
/// quotes: `c` alone where the backslash escapes it, and both otherwise.
pub open spec fn escaped_in_double_quotes(c: char) -> Seq<char> {
    if escapable_in_double_quotes(c) {
        seq![c]
    } else {
        seq!['\\', c]
    }
}

/// A line of nothing but whitespace leaves the lexer where it started: with
/// no word.
pub proof fn lemma_blank_run(input: Seq<char>, i: int)
    requires
        0 <= i <= input.len(),
        forall|k: int| 0 <= k < input.len() ==> whitespace(#[trigger] input[k]),
    ensures
        lex_from(Lexer::start(), input, i) == Lexer::start(),
    decreases input.len() - i,
{
    if i < input.len() {
        assert(whitespace(input[i]));
        lemma_blank_run(input, i + 1);
    }
}

/// Whether every word holds at least one character.
pub open spec fn no_empty_word(words: Seq<Seq<char>>) -> bool {
    forall|k: int| 0 <= k < words.len() ==> (#[trigger] words[k]).len() > 0
}

/// The lexer makes no empty word: if none of the finished words is empty at
/// position `i`, none is at the end of the line.
pub proof fn lemma_words_not_empty(lexer: Lexer, input: Seq<char>, i: int)
    requires
        0 <= i,
        no_empty_word(lexer.done),
    ensures
        no_empty_word(lex_from(lexer, input, i).words()),
    decreases input.len() - i,
{
    if i < input.len() {
        lemma_words_not_empty(step(lexer, input, i), input, i + stride(input, i, lexer.quoting));
    }
}

} // verus!
