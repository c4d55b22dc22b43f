//! The words of a text, as a mathematical model.
use vstd::prelude::*;

use crate::whitespace::is_white_space;

verus! {

/// The pieces of `s` between its white-space characters, in order: each
/// white-space character ends one piece and starts the next, so a run of
/// white space, or white space at either end, yields empty pieces.
pub open spec fn pieces(s: Seq<char>) -> Seq<Seq<char>>
    decreases s.len(),
{
    if s.len() == 0 {
        seq![Seq::empty()]
    } else {
        let p = pieces(s.drop_last());
        if is_white_space(s.last()) {
            p.push(Seq::empty())
        } else {
            p.update(p.len() - 1, p.last().push(s.last()))
        }
    }
}

/// The words of `s`: its pieces between white space with the empty ones
/// dropped. This is the text trimmed, split on runs of white space, with
/// empty results discarded.
pub open spec fn words(s: Seq<char>) -> Seq<Seq<char>> {
    pieces(s).filter(|w: Seq<char>| w.len() > 0)
}

/// The number of tokens in `s`.
pub open spec fn token_count(s: Seq<char>) -> nat {
    words(s).len()
}

/// Whether a token of `s` begins at position `i`.
pub open spec fn starts_token_at(s: Seq<char>, i: int) -> bool {
    &&& !is_white_space(s[i])
    &&& (i == 0 || is_white_space(s[i - 1]))
}

/// The number of positions of `s` at which a token begins.
pub open spec fn token_starts(s: Seq<char>) -> nat
    decreases s.len(),
{
    if s.len() == 0 {
        0
    } else {
        token_starts(s.drop_last()) + if starts_token_at(s, s.len() - 1) {
            1nat
        } else {
            0nat
        }
    }
}

/// There is always a last piece, and it is empty exactly when `s` is empty
/// or ends in white space.
pub proof fn lemma_pieces_last(s: Seq<char>)
    ensures
        pieces(s).len() >= 1,
        pieces(s).last().len() > 0 <==> (s.len() > 0 && !is_white_space(s.last())),
    decreases s.len(),
{
    if s.len() > 0 {
        lemma_pieces_last(s.drop_last());
    }
}

/// Filtering a non-empty sequence keeps what filtering all but its last
/// element keeps, and the last element if it passes.
proof fn lemma_filter_last(p: Seq<Seq<char>>, pred: spec_fn(Seq<char>) -> bool)
    requires
        p.len() > 0,
    ensures
        p.filter(pred).len() == p.drop_last().filter(pred).len() + if pred(p.last()) {
            1nat
        } else {
            0nat
        },
{
    reveal(Seq::filter);
}

/// The number of words of `s` is the number of positions at which a token
/// begins.
pub proof fn lemma_words_len(s: Seq<char>)
    ensures
        token_count(s) == token_starts(s),
    decreases s.len(),
{
    let pred = |w: Seq<char>| w.len() > 0;
    if s.len() == 0 {
        reveal_with_fuel(Seq::filter, 2);
    } else {
        let t = s.drop_last();
        let c = s.last();
        let p = pieces(t);
        let q = pieces(s);
        lemma_words_len(t);
        lemma_pieces_last(t);
        lemma_filter_last(q, pred);
        lemma_filter_last(p, pred);
        assert(t.len() > 0 ==> t.last() == s[s.len() - 2]);
        if is_white_space(c) {
            assert(q.drop_last() =~= p);
        } else {
            assert(q.drop_last() =~= p.drop_last());
        }
    }
}

} // verus!
