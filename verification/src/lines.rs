//! Counting the lines of a captured text.

use vstd::prelude::*;
use vstd::std_specs::iter::IteratorSpec;
use vstd::string::StrSliceExecFns;

verus! {

/// How many of `text`'s characters are line feeds.
pub open spec fn line_feeds(text: Seq<char>) -> nat {
    text.filter(|c: char| c == '\n').len()
}

/// The number of lines in `text`: one for each line feed, and one more for
/// what follows the last of them, if anything does.
pub open spec fn line_count(text: Seq<char>) -> nat {
    if text.len() > 0 && text.last() != '\n' {
        line_feeds(text) + 1
    } else {
        line_feeds(text)
    }
}

/// Counts the lines of `text`.
pub fn count_lines(text: &str) -> (n: usize)
    ensures
        n == line_count(text@),
{
    let length = text.unicode_len();
    let mut feeds: usize = 0;
    let mut open_line: bool = false;
    for c in it: text.chars()
        invariant
            it.seq() == text@,
            length == text@.len(),
            feeds == line_feeds(text@.take(it.index() as int)),
            feeds <= it.index(),
            open_line <==> (it.index() > 0 && text@[it.index() - 1] != '\n'),
    {
        proof {
            let i = it.index() as int;
            assert(text@.take(i + 1) =~= text@.take(i).push(text@[i]));
            text@.take(i).lemma_filter_push(text@[i], |c: char| c == '\n');
        }
        if c == '\n' {
            feeds = feeds + 1;
            open_line = false;
        } else {
            open_line = true;
        }
    }
    assert(text@.take(text@.len() as int) =~= text@);
    proof {
        text@.lemma_filter_len(|c: char| c == '\n');
        if open_line {
            let all_but_last = text@.drop_last();
            assert(text@ =~= all_but_last.push(text@.last()));
            all_but_last.lemma_filter_push(text@.last(), |c: char| c == '\n');
            all_but_last.lemma_filter_len(|c: char| c == '\n');
        }
    }
    if open_line {
        feeds + 1
    } else {
        feeds
    }
}

} // verus!
