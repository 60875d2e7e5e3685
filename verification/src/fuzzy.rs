//! How unlike two rows are, judged by their descriptive text.
use vstd::prelude::*;
use crate::data_frame::texts;

verus! {

/// The similarity, between 0 and 100, that `fuzzywuzzy` finds between two
/// texts once the tokens of each are sorted.
pub uninterp spec fn token_sort_similarity(
    a: Seq<char>,
    b: Seq<char>,
    force_ascii: bool,
    full_process: bool,
) -> u8;

/// Calls `fuzzywuzzy::fuzz::token_sort_ratio`. Not proved: that the result is
/// a function of the four arguments, and that it is at most 100 (the sum of
/// the matching blocks is at most the length of the shorter text). Both flags
/// must be set: the crate then compares ASCII text only, and cuts no
/// character in two.
#[verifier::external_body]
fn token_sort_ratio(a: &str, b: &str, force_ascii: bool, full_process: bool) -> (r: u8)
    requires
        force_ascii,
        full_process,
    ensures
        r == token_sort_similarity(a@, b@, force_ascii, full_process),
        r <= 100,
{
    fuzzywuzzy::fuzz::token_sort_ratio(a, b, force_ascii, full_process)
}

/// How unlike two texts are: 100 less their similarity, which ignores case,
/// punctuation and the order of words.
pub open spec fn dissimilarity(a: Seq<char>, b: Seq<char>) -> int {
    100 - token_sort_similarity(a, b, true, true)
}

/// The least dissimilarity between `value` and the first `upto` of `ours`.
pub open spec fn least_dissimilarity(ours: Seq<Seq<char>>, value: Seq<char>, upto: int) -> int
    decreases upto,
{
    if upto <= 1 {
        dissimilarity(ours[0], value)
    } else {
        let rest = least_dissimilarity(ours, value, upto - 1);
        let here = dissimilarity(ours[upto - 1], value);
        if here < rest {
            here
        } else {
            rest
        }
    }
}

/// What one value of a candidate adds to the candidate's score: the square
/// of its least dissimilarity to any of our values, and nothing where we
/// have no values.
pub open spec fn penalty(ours: Seq<Seq<char>>, value: Seq<char>) -> int {
    if ours.len() == 0 {
        0
    } else {
        let d = least_dissimilarity(ours, value, ours.len() as int);
        d * d
    }
}

/// The score of a candidate: the penalties of its first `upto` values, added
/// up. The lower, the more alike.
pub open spec fn score_upto(ours: Seq<Seq<char>>, theirs: Seq<Seq<char>>, upto: int) -> int
    decreases upto,
{
    if upto <= 0 {
        0
    } else {
        score_upto(ours, theirs, upto - 1) + penalty(ours, theirs[upto - 1])
    }
}

/// The score of a candidate over all its values.
pub open spec fn score(ours: Seq<Seq<char>>, theirs: Seq<Seq<char>>) -> int {
    score_upto(ours, theirs, theirs.len() as int)
}

/// How unlike two texts are.
pub fn text_distance(a: &str, b: &str) -> (r: u8)
    ensures
        r == dissimilarity(a@, b@),
        r <= 100,
{
    100 - token_sort_ratio(a, b, true, true)
}

/// The penalty of one value of a candidate against our values.
pub fn value_penalty(ours: &Vec<String>, value: &str) -> (r: u128)
    ensures
        r == penalty(texts(ours@), value@),
        r <= 10000,
{
    let n: usize = ours.len();
    if n == 0 {
        return 0;
    }
    let ghost mine = texts(ours@);
    let mut least: u8 = text_distance(ours[0].as_str(), value);
    let mut i: usize = 1;
    while i < n
        invariant
            1 <= i <= n,
            n == ours@.len(),
            mine == texts(ours@),
            least == least_dissimilarity(mine, value@, i as int),
            least <= 100,
        decreases n - i,
    {
        let here: u8 = text_distance(ours[i].as_str(), value);
        if here < least {
            least = here;
        }
        i += 1;
    }
    let d: u128 = least as u128;
    assert(d * d <= 10000) by (nonlinear_arith)
        requires
            d <= 100,
    ;
    d * d
}

/// The score of a candidate with the values `theirs` against a row with the
/// values `ours`.
pub fn row_score(ours: &Vec<String>, theirs: &Vec<String>) -> (r: u128)
    ensures
        r == score(texts(ours@), texts(theirs@)),
{
    let n: usize = theirs.len();
    let ghost mine = texts(ours@);
    let ghost other = texts(theirs@);
    let mut total: u128 = 0;
    let mut k: usize = 0;
    while k < n
        invariant
            k <= n,
            n == theirs@.len(),
            mine == texts(ours@),
            other == texts(theirs@),
            total == score_upto(mine, other, k as int),
            total <= 10000 * k,
        decreases n - k,
    {
        let p: u128 = value_penalty(ours, theirs[k].as_str());
        total = total + p;
        k += 1;
    }
    total
}

} // verus!
