//! Counting the tokens of a text in one pass.
use vstd::prelude::*;

use crate::whitespace::{is_white_space, is_whitespace};
use crate::words::{lemma_words_len, starts_token_at, token_count, token_starts};

verus! {

/// Counts the maximal runs of non-white-space characters in `text`.
pub fn count_tokens(text: &str) -> (r: usize)
    requires
        text@.len() <= usize::MAX,
    ensures
        r == token_count(text@),
{
    let ghost s = text@;
    let mut count: usize = 0;
    let mut in_token: bool = false;
    for c in it: text.chars()
        invariant
            it.seq() == s,
            s.len() <= usize::MAX,
            count <= it.index(),
            count == token_starts(s.take(it.index() as int)),
            in_token <==> (it.index() > 0 && !is_white_space(s[it.index() - 1])),
    {
        let ghost i = it.index() as int;
        assert(s.take(i + 1).drop_last() =~= s.take(i));
        if is_whitespace(c) {
            in_token = false;
        } else {
            if !in_token {
                count = count + 1;
            }
            in_token = true;
        }
    }
    proof {
        assert(s.take(s.len() as int) =~= s);
        lemma_words_len(s);
    }
    count
}

} // verus!
