//! What holds of the token count across texts.
use vstd::prelude::*;

use crate::whitespace::is_white_space;
use crate::words::{lemma_words_len, starts_token_at, token_count, token_starts};

verus! {

/// Whether `a` ends and `b` starts inside a token, so that writing `b` right
/// after `a` glues those two tokens into one.
pub open spec fn joins(a: Seq<char>, b: Seq<char>) -> bool {
    &&& a.len() > 0
    &&& b.len() > 0
    &&& !is_white_space(a.last())
    &&& !is_white_space(b[0])
}

proof fn lemma_starts_concat(a: Seq<char>, b: Seq<char>)
    ensures
        token_starts(a + b) + (if joins(a, b) {
            1nat
        } else {
            0nat
        }) == token_starts(a) + token_starts(b),
    decreases b.len(),
{
    if b.len() == 0 {
        assert(a + b =~= a);
    } else {
        let bt = b.drop_last();
        lemma_starts_concat(a, bt);
        assert((a + b).drop_last() =~= a + bt);
        let n = (a + b).len() - 1;
        if b.len() >= 2 {
            assert((a + b)[n - 1] == b[b.len() - 2]);
            assert(starts_token_at(a + b, n) == starts_token_at(b, b.len() - 1));
            assert(joins(a, bt) == joins(a, b));
        } else {
            assert(!joins(a, bt));
            if a.len() > 0 {
                assert((a + b)[n - 1] == a.last());
            }
        }
    }
}

/// Counting the tokens of two texts written one after the other: the counts
/// add up, but for one token fewer where the first text ends and the second
/// starts with a character that is not white space.
pub proof fn lemma_count_concat(a: Seq<char>, b: Seq<char>)
    ensures
        token_count(a + b) + (if joins(a, b) {
            1nat
        } else {
            0nat
        }) == token_count(a) + token_count(b),
{
    lemma_starts_concat(a, b);
    lemma_words_len(a);
    lemma_words_len(b);
    lemma_words_len(a + b);
}

proof fn lemma_starts_zero(s: Seq<char>)
    ensures
        token_starts(s) == 0 <==> forall|i: int| 0 <= i < s.len() ==> is_white_space(#[trigger] s[i]),
    decreases s.len(),
{
    if s.len() > 0 {
        let t = s.drop_last();
        lemma_starts_zero(t);
        let n = s.len() - 1;
        if token_starts(s) == 0 {
            assert forall|i: int| 0 <= i < s.len() implies is_white_space(#[trigger] s[i]) by {
                if i < n {
                    assert(t[i] == s[i]);
                } else if n > 0 {
                    assert(t[n - 1] == s[n - 1]);
                }
            }
        } else if forall|i: int| 0 <= i < s.len() ==> is_white_space(#[trigger] s[i]) {
            assert forall|i: int| 0 <= i < t.len() implies is_white_space(#[trigger] t[i]) by {
                assert(t[i] == s[i]);
            }
            assert(is_white_space(s[n]));
        }
    }
}

/// A text has no tokens exactly when every character of it is white space;
/// in particular the empty text and a text of white space alone have none.
pub proof fn lemma_zero_iff_all_white_space(s: Seq<char>)
    ensures
        token_count(s) == 0 <==> forall|i: int| 0 <= i < s.len() ==> is_white_space(#[trigger] s[i]),
{
    lemma_starts_zero(s);
    lemma_words_len(s);
}

/// Replacing a run of white space inside a text by a single space leaves
/// the number of tokens unchanged.
pub proof fn lemma_collapse_white_space(a: Seq<char>, run: Seq<char>, b: Seq<char>)
    requires
        run.len() > 0,
        forall|i: int| 0 <= i < run.len() ==> is_white_space(#[trigger] run[i]),
    ensures
        token_count(a + run + b) == token_count(a + seq![' '] + b),
{
    let sp: Seq<char> = seq![' '];
    assert(is_white_space(sp[0]));
    assert forall|i: int| 0 <= i < sp.len() implies is_white_space(#[trigger] sp[i]) by {}
    lemma_zero_iff_all_white_space(run);
    lemma_zero_iff_all_white_space(sp);
    lemma_count_concat(a, run);
    lemma_count_concat(a + run, b);
    lemma_count_concat(a, sp);
    lemma_count_concat(a + sp, b);
    assert(!joins(a, run));
    assert(!joins(a, sp));
    assert((a + run).last() == run.last());
    assert((a + sp).last() == sp.last());
}

/// Joining two texts with one space between them gives as many tokens as
/// the two have together.
pub proof fn lemma_join_with_space(a: Seq<char>, b: Seq<char>)
    ensures
        token_count(a) + token_count(b) == token_count(a + seq![' '] + b),
{
    let sp: Seq<char> = seq![' '];
    assert(is_white_space(sp[0]));
    assert forall|i: int| 0 <= i < sp.len() implies is_white_space(#[trigger] sp[i]) by {}
    lemma_zero_iff_all_white_space(sp);
    lemma_count_concat(a, sp);
    lemma_count_concat(a + sp, b);
    assert((a + sp).last() == sp.last());
}

} // verus!
