//! Character classes, and occurrences of one piece of text in another.

use vstd::prelude::*;

verus! {

/// Whether `c` is one of the letters `A` to `Z`.
pub open spec fn is_upper(c: char) -> bool {
    'A' <= c <= 'Z'
}

/// Whether `c` is one of the letters `a` to `z`.
pub open spec fn is_lower(c: char) -> bool {
    'a' <= c <= 'z'
}

/// Whether `c` is one of the digits `0` to `9`.
pub open spec fn is_digit(c: char) -> bool {
    '0' <= c <= '9'
}

/// Whether every character of `s` is an upper-case letter.
pub open spec fn all_upper(s: Seq<char>) -> bool {
    forall|i: int| 0 <= i < s.len() ==> is_upper(#[trigger] s[i])
}

/// Whether no character of `s` is an upper-case letter.
pub open spec fn no_upper(s: Seq<char>) -> bool {
    forall|i: int| 0 <= i < s.len() ==> !is_upper(#[trigger] s[i])
}

/// Whether `word` stands in `hay` at offset `at`.
pub open spec fn occurs_at(hay: Seq<char>, word: Seq<char>, at: int) -> bool {
    &&& 0 <= at
    &&& at + word.len() <= hay.len()
    &&& hay.subrange(at, at + word.len()) == word
}

/// Whether `word` stands anywhere in `hay`.
pub open spec fn occurs_in(hay: Seq<char>, word: Seq<char>) -> bool {
    exists|at: int| occurs_at(hay, word, at)
}

/// Text without upper-case letters, joined, is without upper-case letters.
pub proof fn lemma_no_upper_concat(x: Seq<char>, y: Seq<char>)
    requires
        no_upper(x),
        no_upper(y),
    ensures
        no_upper(x + y),
{
    assert forall|i: int| 0 <= i < (x + y).len() implies !is_upper(#[trigger] (x + y)[i]) by {
        if i < x.len() {
            assert((x + y)[i] == x[i]);
        } else {
            assert((x + y)[i] == y[i - x.len()]);
        }
    }
}

/// An occurrence in `x + y` that begins behind `x` is an occurrence in `y`.
pub proof fn lemma_occurrence_behind(x: Seq<char>, y: Seq<char>, word: Seq<char>, at: int)
    requires
        occurs_at(x + y, word, at),
        at >= x.len(),
    ensures
        occurs_at(y, word, at - x.len()),
{
    let n = word.len() as int;
    assert(y.subrange(at - x.len(), at - x.len() + n) =~= (x + y).subrange(at, at + n));
}

/// An upper-case word cannot begin inside text that has no upper-case
/// letter: where it occurs in `x + y`, it occurs in `y`.
pub proof fn lemma_occurrence_skips(x: Seq<char>, y: Seq<char>, word: Seq<char>, at: int)
    requires
        word.len() > 0,
        all_upper(word),
        no_upper(x),
        occurs_at(x + y, word, at),
    ensures
        at >= x.len(),
        occurs_at(y, word, at - x.len()),
{
    if at < x.len() {
        let n = word.len() as int;
        assert((x + y).subrange(at, at + n)[0] == word[0]);
        assert((x + y)[at] == x[at]);
        assert(is_upper(word[0]));
        assert(!is_upper(x[at]));
    }
    lemma_occurrence_behind(x, y, word, at);
}

/// An upper-case word cannot reach across a character that is no
/// upper-case letter: where it begins inside `x`, it ends inside `x`.
pub proof fn lemma_occurrence_stops(x: Seq<char>, y: Seq<char>, word: Seq<char>, at: int)
    requires
        all_upper(word),
        y.len() == 0 || !is_upper(y[0]),
        occurs_at(x + y, word, at),
        at < x.len(),
    ensures
        occurs_at(x, word, at),
{
    let n = word.len() as int;
    if at + n > x.len() {
        let k = x.len() - at;
        assert((x + y).subrange(at, at + n)[k] == word[k]);
        assert((x + y)[at + k] == y[0]);
        assert(is_upper(word[k]));
    }
    assert(x.subrange(at, at + n) =~= (x + y).subrange(at, at + n));
}

} // verus!
