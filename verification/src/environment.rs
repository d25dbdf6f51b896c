//! The search path: where the shell looks for programs.
//!
//! Reading the environment and probing the file system are the host's part.
//! What is decided here is the order: the directories of the search path as
//! they are written, and the first of them that holds the program.

use vstd::prelude::*;

use crate::text::{joined, push_char, to_chars};

verus! {

/// The separator between the directories of a search path.
pub const PATH_SEPARATOR: char = ':';

/// The pieces of `text` between separators, in order. There is always one
/// piece more than there are separators, so some pieces may be empty.
pub open spec fn pieces(text: Seq<char>, separator: char) -> Seq<Seq<char>>
    decreases text.len(),
{
    if text.len() == 0 {
        seq![Seq::empty()]
    } else {
        let before = pieces(text.drop_last(), separator);
        if text.last() == separator {
            before.push(Seq::empty())
        } else {
            before.drop_last().push(before.last().push(text.last()))
        }
    }
}

/// Splitting loses nothing: the pieces, put together again with the
/// separator between them, are the text; and no piece holds a separator.
pub proof fn law_pieces_rejoin(text: Seq<char>, separator: char)
    ensures
        pieces(text, separator).len() >= 1,
        joined(pieces(text, separator), seq![separator]) == text,
        forall|k: int, j: int|
            0 <= k < pieces(text, separator).len() && 0 <= j < pieces(text, separator)[k].len()
                ==> #[trigger] pieces(text, separator)[k][j] != separator,
    decreases text.len(),
{
    if text.len() == 0 {
        assert(joined(seq![Seq::<char>::empty()], seq![separator]) =~= text);
    } else {
        let before = pieces(text.drop_last(), separator);
        law_pieces_rejoin(text.drop_last(), separator);
        let now = pieces(text, separator);
        if text.last() == separator {
            assert(now.drop_last() =~= before);
            assert(joined(now, seq![separator]) =~= joined(before, seq![separator]) + seq![
                separator,
            ] + Seq::empty());
            assert(text.drop_last() + seq![separator] + Seq::empty() =~= text);
        } else {
            let grown = before.last().push(text.last());
            assert(now.drop_last() =~= before.drop_last());
            assert(now.last() == grown);
            if before.len() == 1 {
                assert(joined(before, seq![separator]) == before[0]);
                assert(joined(now, seq![separator]) == grown);
                assert(grown =~= text.drop_last().push(text.last()));
            } else {
                assert(joined(before, seq![separator]) == joined(
                    before.drop_last(),
                    seq![separator],
                ) + seq![separator] + before.last());
                assert(joined(now, seq![separator]) =~= (joined(
                    before.drop_last(),
                    seq![separator],
                ) + seq![separator] + before.last()).push(text.last()));
            }
            assert(text.drop_last().push(text.last()) =~= text);
        }
    }
}

/// The directories of the search path `paths`, in the order in which they
/// are searched.
pub fn search_dirs(paths: &str) -> (dirs: Vec<String>)
    ensures
        dirs.deep_view() == pieces(paths@, PATH_SEPARATOR),
{
    let chars = to_chars(paths);
    let mut dirs: Vec<String> = Vec::new();
    let mut current = String::new();
    let mut i: usize = 0;
    assert(chars@.take(0) =~= Seq::empty());
    assert(dirs.deep_view().push(current@) =~= seq![Seq::empty()]);
    while i < chars.len()
        invariant
            i <= chars.len(),
            chars@ == paths@,
            dirs.deep_view().push(current@) == pieces(chars@.take(i as int), PATH_SEPARATOR),
        decreases chars.len() - i,
    {
        let ghost done = dirs.deep_view();
        let ghost word = current@;
        assert(chars@.take(i + 1).drop_last() =~= chars@.take(i as int));
        assert(done.push(word).drop_last() =~= done);
        if chars[i] == PATH_SEPARATOR {
            dirs.push(current);
            current = String::new();
            assert(dirs.deep_view() =~= done.push(word));
        } else {
            push_char(&mut current, chars[i]);
        }
        i += 1;
    }
    assert(chars@.take(i as int) =~= chars@);
    let ghost done = dirs.deep_view();
    let ghost word = current@;
    dirs.push(current);
    assert(dirs.deep_view() =~= done.push(word));
    dirs
}

/// Whether `hit` is the first probe that found something.
pub open spec fn first_hit(probes: Seq<Option<Seq<char>>>, hit: Option<Seq<char>>) -> bool {
    match hit {
        Some(path) => exists|k: int|
            0 <= k < probes.len() && #[trigger] probes[k] == Some(path) && forall|j: int|
                0 <= j < k ==> #[trigger] probes[j] is None,
        None => forall|k: int| 0 <= k < probes.len() ==> #[trigger] probes[k] is None,
    }
}

/// Picks the program's location from the probes of the search path. The
/// host probes each directory of the path in order and notes the file's
/// location where the directory holds the program as a regular file; the
/// first such location is the answer, and `None` if there is none.
pub fn search_bin(probes: &Vec<Option<String>>) -> (found: Option<String>)
    ensures
        first_hit(probes.deep_view(), found.deep_view()),
{
    let mut i: usize = 0;
    while i < probes.len()
        invariant
            i <= probes.len(),
            forall|j: int| 0 <= j < i ==> #[trigger] probes.deep_view()[j] is None,
        decreases probes.len() - i,
    {
        match &probes[i] {
            Some(path) => {
                let found = Some(path.clone());
                assert(probes.deep_view()[i as int] == found.deep_view());
                return found;
            },
            None => {
                assert(probes.deep_view()[i as int] is None);
            },
        }
        i += 1;
    }
    None
}

} // verus!
