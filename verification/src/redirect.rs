//! The redirection scan: taking `>`, `1>` and `2>` and their targets out of
//! the words of a line.
//!
//! An operator is a word of its own, and the word after it is its target.
//! Where a stream is redirected more than once, the last target counts.

use vstd::prelude::*;

use crate::text::str_eq;

verus! {

/// The output streams that a command line can redirect.
#[derive(Debug, Clone, Copy, PartialEq, Eq)]
pub enum Stream {
    /// Standard output, redirected by `>` or `1>`.
    Stdout,
    /// Standard error, redirected by `2>`.
    Stderr,
}

/// Whether `word` is a redirection operator for `stream`.
pub open spec fn is_operator(word: Seq<char>, stream: Stream) -> bool {
    match stream {
        Stream::Stdout => word == seq!['>'] || word == seq!['1', '>'],
        Stream::Stderr => word == seq!['2', '>'],
    }
}

/// What a redirection scan leaves: the other words, and the target if the
/// stream is redirected.
pub struct Redirected {
    /// The words that are neither an operator of the stream nor a target.
    pub rest: Seq<Seq<char>>,
    /// The target of the last redirection of the stream.
    pub target: Option<Seq<char>>,
}

/// Takes the redirections of `stream` out of `words`.
///
/// Each operator takes the word after it as its target, whatever that word
/// is; the last target on the line wins. `None` where an operator is the last
/// word and so has no target.
pub open spec fn redirect(words: Seq<Seq<char>>, stream: Stream) -> Option<Redirected>
    decreases words.len(),
{
    if words.len() == 0 {
        Some(Redirected { rest: Seq::empty(), target: None })
    } else if is_operator(words[0], stream) {
        if words.len() == 1 {
            None
        } else {
            match redirect(words.skip(2), stream) {
                Some(later) => Some(
                    Redirected {
                        rest: later.rest,
                        target: if later.target is Some {
                            later.target
                        } else {
                            Some(words[1])
                        },
                    },
                ),
                None => None,
            }
        }
    } else {
        match redirect(words.skip(1), stream) {
            Some(later) => Some(
                Redirected { rest: seq![words[0]] + later.rest, target: later.target },
            ),
            None => None,
        }
    }
}

/// The scan of a whole line, given what the scan of a prefix has kept and
/// found and what the scan of the remainder yields.
spec fn resume_scan(
    kept: Seq<Seq<char>>,
    found: Option<Seq<char>>,
    later: Option<Redirected>,
) -> Option<Redirected> {
    match later {
        Some(later) => Some(
            Redirected {
                rest: kept + later.rest,
                target: if later.target is Some {
                    later.target
                } else {
                    found
                },
            },
        ),
        None => None,
    }
}

/// Whether `word` is a redirection operator for `stream`.
pub fn is_redirect_operator(word: &str, stream: Stream) -> (yes: bool)
    ensures
        yes == is_operator(word@, stream),
{
    proof {
        reveal_strlit(">");
        reveal_strlit("1>");
        reveal_strlit("2>");
        assert(">"@ =~= seq!['>']);
        assert("1>"@ =~= seq!['1', '>']);
        assert("2>"@ =~= seq!['2', '>']);
    }
    match stream {
        Stream::Stdout => str_eq(word, ">") || str_eq(word, "1>"),
        Stream::Stderr => str_eq(word, "2>"),
    }
}

/// Takes the redirections of `stream` out of `words`: the remaining words and
/// the target, or `None` where an operator has no target.
pub fn take_redirect(words: &Vec<String>, stream: Stream) -> (result: Option<
    (Vec<String>, Option<String>),
>)
    ensures
        match redirect(words.deep_view(), stream) {
            Some(scan) => result matches Some((rest, target)) && rest.deep_view() == scan.rest
                && target.deep_view() == scan.target,
            None => result is None,
        },
{
    let ghost all = words.deep_view();
    let mut rest: Vec<String> = Vec::new();
    let mut target: Option<String> = None;
    let mut i: usize = 0;
    assert(rest.deep_view() =~= Seq::empty());
    assert(all.skip(0) =~= all);
    assert(resume_scan(Seq::empty(), None, redirect(all, stream)) == redirect(all, stream)) by {
        if let Some(scan) = redirect(all, stream) {
            assert(Seq::<Seq<char>>::empty() + scan.rest =~= scan.rest);
        }
    }
    while i < words.len()
        invariant
            i <= words.len(),
            all == words.deep_view(),
            redirect(all, stream) == resume_scan(
                rest.deep_view(),
                target.deep_view(),
                redirect(all.skip(i as int), stream),
            ),
        decreases words.len() - i,
    {
        let ghost kept = rest.deep_view();
        let ghost tail = all.skip(i as int);
        assert(tail[0] == words[i as int]@);
        if is_redirect_operator(words[i].as_str(), stream) {
            if i + 1 < words.len() {
                assert(tail[1] == words[i + 1]@);
                assert(tail.skip(2) =~= all.skip(i + 2));
                target = Some(words[i + 1].clone());
                i += 2;
            } else {
                return None;
            }
        } else {
            assert(tail.skip(1) =~= all.skip(i + 1));
            rest.push(words[i].clone());
            assert(rest.deep_view() =~= kept.push(tail[0]));
            assert forall|more: Seq<Seq<char>>| kept + (seq![tail[0]] + more) == kept.push(tail[0])
                + more by {
                assert(kept + (seq![tail[0]] + more) =~= kept.push(tail[0]) + more);
            }
            i += 1;
        }
    }
    assert(all.skip(i as int) =~= Seq::empty());
    assert(rest.deep_view() + Seq::<Seq<char>>::empty() =~= rest.deep_view());
    Some((rest, target))
}

/// Where no word is an operator, the scan keeps every word and finds no target.
pub proof fn lemma_no_operator_no_redirect(words: Seq<Seq<char>>, stream: Stream)
    requires
        forall|k: int| 0 <= k < words.len() ==> !is_operator(#[trigger] words[k], stream),
    ensures
        redirect(words, stream) == Some(Redirected { rest: words, target: None }),
    decreases words.len(),
{
    if words.len() > 0 {
        assert(!is_operator(words[0], stream));
        lemma_no_operator_no_redirect(words.skip(1), stream);
        assert(seq![words[0]] + words.skip(1) =~= words);
    } else {
        assert(words =~= Seq::empty());
    }
}

/// What a scan keeps are words of the line that are no operators of the
/// scanned stream, and its target is a word of the line.
pub proof fn lemma_redirect_keeps_words(words: Seq<Seq<char>>, stream: Stream)
    ensures
        redirect(words, stream) matches Some(scan) ==> {
            &&& forall|k: int|
                0 <= k < scan.rest.len() ==> words.contains(#[trigger] scan.rest[k])
                    && !is_operator(scan.rest[k], stream)
            &&& scan.target matches Some(target) ==> words.contains(target)
        },
    decreases words.len(),
{
    if words.len() == 0 {
    } else if is_operator(words[0], stream) {
        if words.len() > 1 {
            let tail = words.skip(2);
            lemma_redirect_keeps_words(tail, stream);
            if let Some(later) = redirect(tail, stream) {
                assert forall|k: int| 0 <= k < later.rest.len() implies words.contains(
                    #[trigger] later.rest[k],
                ) by {
                    let j = choose|j: int| 0 <= j < tail.len() && tail[j] == later.rest[k];
                    assert(words[j + 2] == later.rest[k]);
                }
                if let Some(target) = later.target {
                    let j = choose|j: int| 0 <= j < tail.len() && tail[j] == target;
                    assert(words[j + 2] == target);
                } else {
                    assert(words[1] == words[1]);
                }
            }
        }
    } else {
        let tail = words.skip(1);
        lemma_redirect_keeps_words(tail, stream);
        if let Some(later) = redirect(tail, stream) {
            let rest = seq![words[0]] + later.rest;
            assert forall|k: int| 0 <= k < rest.len() implies words.contains(#[trigger] rest[k])
                && !is_operator(rest[k], stream) by {
                if k == 0 {
                    assert(words[0] == rest[0]);
                } else {
                    assert(rest[k] == later.rest[k - 1]);
                    let j = choose|j: int| 0 <= j < tail.len() && tail[j] == later.rest[k - 1];
                    assert(words[j + 1] == rest[k]);
                }
            }
            if let Some(target) = later.target {
                let j = choose|j: int| 0 <= j < tail.len() && tail[j] == target;
                assert(words[j + 1] == target);
            }
        }
    }
}

/// Of several redirections of one stream the last one counts: a line whose
/// scan succeeds, followed by an operator and its target, keeps the same
/// words and has that target.
pub proof fn law_last_redirection_wins(
    words: Seq<Seq<char>>,
    stream: Stream,
    operator: Seq<char>,
    target: Seq<char>,
)
    requires
        redirect(words, stream) is Some,
        is_operator(operator, stream),
    ensures
        redirect(words + seq![operator, target], stream) == Some(
            Redirected { rest: redirect(words, stream)->Some_0.rest, target: Some(target) },
        ),
    decreases words.len(),
{
    let longer = words + seq![operator, target];
    if words.len() == 0 {
        assert(longer[0] == operator);
        assert(longer[1] == target);
        assert(longer.skip(2) =~= Seq::empty());
        assert(redirect(longer.skip(2), stream) == Some(
            Redirected { rest: Seq::empty(), target: None },
        ));
    } else if is_operator(words[0], stream) {
        assert(longer[0] == words[0]);
        assert(longer[1] == words[1]);
        assert(longer.skip(2) =~= words.skip(2) + seq![operator, target]);
        law_last_redirection_wins(words.skip(2), stream, operator, target);
        assert(redirect(longer.skip(2), stream)->Some_0.rest == redirect(
            words.skip(2),
            stream,
        )->Some_0.rest);
    } else {
        assert(longer[0] == words[0]);
        assert(longer.skip(1) =~= words.skip(1) + seq![operator, target]);
        law_last_redirection_wins(words.skip(1), stream, operator, target);
        assert(redirect(longer.skip(1), stream)->Some_0.rest == redirect(
            words.skip(1),
            stream,
        )->Some_0.rest);
    }
}

} // verus!
