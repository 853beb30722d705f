//! Verified text matching for the two fixed extraction patterns.
//!
//! Each pattern has the shape `<prefix>(.+)<suffix>`: a literal prefix, a
//! non-empty greedy run of non-newline characters (the capture), and a literal
//! suffix. Matching follows the usual regex semantics for such a pattern: the
//! match starts at the leftmost position where the whole pattern can match,
//! and there the capture is as long as possible.

use vstd::prelude::*;
use vstd::string::StrSliceExecFns;

verus! {

/// The pattern `pre (.+) suf` matches in `s` at position `i` with a capture of
/// length `len`: the prefix starts at `i`, the capture is `len >= 1` non-newline
/// characters, and the suffix follows immediately.
pub open spec fn match_at(s: Seq<char>, pre: Seq<char>, suf: Seq<char>, i: int, len: int) -> bool {
    &&& 0 <= i
    &&& 1 <= len
    &&& i + pre.len() + len + suf.len() <= s.len()
    &&& s.subrange(i, i + pre.len()) == pre
    &&& (forall|k: int| i + pre.len() <= k < i + pre.len() + len ==> s[k] != '\n')
    &&& s.subrange(i + pre.len() + len, i + pre.len() + len + suf.len()) == suf
}

/// Some capture length makes the pattern match at position `i`.
pub open spec fn match_from(s: Seq<char>, pre: Seq<char>, suf: Seq<char>, i: int) -> bool {
    exists|len: int| match_at(s, pre, suf, i, len)
}

/// The pattern matches somewhere in `s`.
pub open spec fn has_match(s: Seq<char>, pre: Seq<char>, suf: Seq<char>) -> bool {
    exists|i: int| match_from(s, pre, suf, i)
}

/// `(i, len)` is the match a regex engine reports for `pre (.+) suf`:
/// no match starts to the left of `i`, and at `i` no longer capture matches.
pub open spec fn leftmost_greedy(
    s: Seq<char>,
    pre: Seq<char>,
    suf: Seq<char>,
    i: int,
    len: int,
) -> bool {
    &&& match_at(s, pre, suf, i, len)
    &&& (forall|j: int| 0 <= j < i ==> !match_from(s, pre, suf, j))
    &&& (forall|l: int| len < l ==> !match_at(s, pre, suf, i, l))
}

/// The text the capture group covers for a match at `i` of length `len`.
pub open spec fn captured(s: Seq<char>, pre: Seq<char>, i: int, len: int) -> Seq<char> {
    s.subrange(i + pre.len(), i + pre.len() + len)
}

/// `v` is the capture of the leftmost-greedy match of `pre (.+) suf` in `s`.
pub open spec fn is_captured_value(
    s: Seq<char>,
    pre: Seq<char>,
    suf: Seq<char>,
    v: Seq<char>,
) -> bool {
    exists|i: int, len: int| leftmost_greedy(s, pre, suf, i, len) && v == captured(s, pre, i, len)
}

/// `pat` occurs in `s` starting at position `i`.
pub open spec fn occurs_at(s: Seq<char>, pat: Seq<char>, i: int) -> bool {
    &&& 0 <= i
    &&& i + pat.len() <= s.len()
    &&& s.subrange(i, i + pat.len()) == pat
}

/// `pat` occurs somewhere in `s` (substring containment).
pub open spec fn contains_seq(s: Seq<char>, pat: Seq<char>) -> bool {
    exists|i: int| occurs_at(s, pat, i)
}

/// The characters of `s`, one vector element per `char`.
pub fn str_to_chars(s: &str) -> (r: Vec<char>)
    ensures
        r@ == s@,
{
    let n = s.unicode_len();
    let mut r: Vec<char> = Vec::new();
    let mut i: usize = 0;
    while i < n
        invariant
            i <= n,
            n == s@.len(),
            r@ == s@.subrange(0, i as int),
        decreases n - i,
    {
        r.push(s.get_char(i));
        i = i + 1;
        proof {
            assert(r@ =~= s@.subrange(0, i as int));
        }
    }
    proof {
        assert(r@ =~= s@);
    }
    r
}

/// Whether `pat` occurs in `text` starting exactly at `i`.
fn occurs_here(text: &Vec<char>, pat: &Vec<char>, i: usize) -> (r: bool)
    requires
        i + pat@.len() <= text@.len(),
    ensures
        r == occurs_at(text@, pat@, i as int),
{
    let n = text.len();
    let mut k: usize = 0;
    while k < pat.len()
        invariant
            k <= pat@.len(),
            n == text@.len(),
            i + pat@.len() <= n,
            forall|m: int| 0 <= m < k ==> text@[i + m] == pat@[m],
        decreases pat@.len() - k,
    {
        if text[i + k] != pat[k] {
            proof {
                assert(text@.subrange(i as int, i + pat@.len())[k as int] == text@[i + k]);
            }
            return false;
        }
        k = k + 1;
    }
    proof {
        assert(text@.subrange(i as int, i + pat@.len()) =~= pat@);
    }
    true
}

/// Whether `pat` occurs anywhere in `text`.
pub fn contains_pat(text: &Vec<char>, pat: &Vec<char>) -> (r: bool)
    ensures
        r == contains_seq(text@, pat@),
{
    let n = text.len();
    let p = pat.len();
    if p > n {
        proof {
            assert forall|i: int| !occurs_at(text@, pat@, i) by {}
        }
        return false;
    }
    if p == 0 {
        proof {
            assert(text@.subrange(0, 0) =~= pat@);
            assert(occurs_at(text@, pat@, 0));
        }
        return true;
    }
    let last = n - p;
    let mut i: usize = 0;
    loop
        invariant
            i <= last + 1,
            1 <= p <= n,
            last == n - p,
            n == text@.len(),
            p == pat@.len(),
            forall|j: int| 0 <= j < i ==> !occurs_at(text@, pat@, j),
        decreases last + 1 - i,
    {
        if i > last {
            // Every position up to `last` was ruled out, and no later one
            // leaves room for the pattern.
            proof {
                assert forall|j: int| !occurs_at(text@, pat@, j) by {}
            }
            return false;
        }
        if occurs_here(text, pat, i) {
            return true;
        }
        i = i + 1;
    }
}

/// The end of the run of non-newline characters that starts at `start`:
/// the first index at or after `start` holding `'\n'`, or the text's length.
fn line_end(text: &Vec<char>, start: usize) -> (e: usize)
    requires
        start <= text@.len(),
    ensures
        start <= e <= text@.len(),
        forall|k: int| start <= k < e ==> text@[k] != '\n',
        e < text@.len() ==> text@[e as int] == '\n',
{
    let n = text.len();
    let mut e = start;
    while e < n
        invariant
            start <= e <= n,
            n == text@.len(),
            forall|k: int| start <= k < e ==> text@[k] != '\n',
        decreases n - e,
    {
        if text[e] == '\n' {
            return e;
        }
        e = e + 1;
    }
    e
}

/// Search `text` for the pattern `pre (.+) suf` and report the leftmost-greedy
/// match as `(start, capture length)`, or `None` when the pattern matches
/// nowhere.
pub fn find_capture(text: &Vec<char>, pre: &Vec<char>, suf: &Vec<char>) -> (r: Option<(
    usize,
    usize,
)>)
    requires
        1 <= pre@.len(),
        1 <= suf@.len(),
    ensures
        match r {
            Some(m) => leftmost_greedy(text@, pre@, suf@, m.0 as int, m.1 as int),
            None => !has_match(text@, pre@, suf@),
        },
{
    let n = text.len();
    let p = pre.len();
    let q = suf.len();
    if n < p || n - p < q || n - p - q < 1 {
        proof {
            assert forall|j: int| !match_from(text@, pre@, suf@, j) by {
                if match_from(text@, pre@, suf@, j) {
                    let len = choose|len: int| match_at(text@, pre@, suf@, j, len);
                }
            }
        }
        return None;
    }
    // The largest position a match can start at: a match needs the prefix,
    // at least one capture character, and the suffix to fit after it.
    let max_i = n - p - q - 1;
    let mut i: usize = 0;
    loop
        invariant
            i <= max_i + 1,
            n == text@.len(),
            p == pre@.len(),
            q == suf@.len(),
            1 <= p,
            1 <= q,
            max_i == n - p - q - 1,
            p + q + 1 <= n,
            forall|j: int| 0 <= j < i ==> !match_from(text@, pre@, suf@, j),
        decreases max_i + 1 - i,
    {
        if i > max_i {
            proof {
                assert forall|j: int| !match_from(text@, pre@, suf@, j) by {
                    if match_from(text@, pre@, suf@, j) {
                        let len = choose|len: int| match_at(text@, pre@, suf@, j, len);
                        assert(j + p + len + q <= n && 1 <= len);
                        assert(0 <= j <= max_i);
                    }
                }
            }
            return None;
        }
        if occurs_here(text, pre, i) {
            let cap_start = i + p;
            let eol = line_end(text, cap_start);
            // A capture may not contain a newline, and the suffix must fit
            // inside the text, so the capture can end no later than here.
            let hi = if eol > n - q {
                n - q
            } else {
                eol
            };
            proof {
                assert forall|l: int|
                    match_at(text@, pre@, suf@, i as int, l) implies cap_start + 1 <= cap_start + l
                    <= hi by {
                    lemma_match_end_bounded(text@, pre@, suf@, i as int, l, eol as int);
                }
            }
            let mut e = hi;
            while e > cap_start
                invariant
                    cap_start <= e <= hi,
                    n == text@.len(),
                    p == pre@.len(),
                    q == suf@.len(),
                    1 <= q,
                    cap_start == i + p,
                    hi + q <= n,
                    eol <= n,
                    occurs_at(text@, pre@, i as int),
                    forall|k: int| cap_start <= k < eol ==> text@[k] != '\n',
                    hi <= eol,
                    forall|l: int|
                        match_at(text@, pre@, suf@, i as int, l) ==> cap_start + 1 <= cap_start + l
                            <= hi,
                    forall|ee: int| e < ee <= hi ==> !occurs_at(text@, suf@, ee),
                    forall|j: int| 0 <= j < i ==> !match_from(text@, pre@, suf@, j),
                decreases e,
            {
                if occurs_here(text, suf, e) {
                    let len = e - cap_start;
                    proof {
                        assert(text@.subrange(i as int, i + p) == pre@);
                        assert(match_at(text@, pre@, suf@, i as int, len as int));
                        assert forall|l: int| len < l implies !match_at(
                            text@,
                            pre@,
                            suf@,
                            i as int,
                            l,
                        ) by {
                            if match_at(text@, pre@, suf@, i as int, l) {
                                lemma_match_gives_suffix(text@, pre@, suf@, i as int, l);
                            }
                        }
                    }
                    return Some((i, len));
                }
                e = e - 1;
            }
            // No capture end works at this start position, so no match starts
            // here; move one character to the right.
            proof {
                assert forall|l: int| !match_at(text@, pre@, suf@, i as int, l) by {
                    if match_at(text@, pre@, suf@, i as int, l) {
                        lemma_match_gives_suffix(text@, pre@, suf@, i as int, l);
                    }
                }
            }
        }
        i = i + 1;
    }
}

/// The leftmost-greedy match is unique: no two distinct positions or capture
/// lengths both qualify.
pub proof fn lemma_leftmost_greedy_unique(
    s: Seq<char>,
    pre: Seq<char>,
    suf: Seq<char>,
    i1: int,
    len1: int,
    i2: int,
    len2: int,
)
    requires
        leftmost_greedy(s, pre, suf, i1, len1),
        leftmost_greedy(s, pre, suf, i2, len2),
    ensures
        i1 == i2,
        len1 == len2,
{
    assert(match_from(s, pre, suf, i1));
    assert(match_from(s, pre, suf, i2));
}

/// The capture of a pattern in a text is a single value: any two captures of
/// the same pattern in the same text are equal.
pub proof fn lemma_captured_value_unique(
    s: Seq<char>,
    pre: Seq<char>,
    suf: Seq<char>,
    v1: Seq<char>,
    v2: Seq<char>,
)
    requires
        is_captured_value(s, pre, suf, v1),
        is_captured_value(s, pre, suf, v2),
    ensures
        v1 == v2,
{
    let (i1, len1) = choose|i: int, len: int|
        leftmost_greedy(s, pre, suf, i, len) && v1 == captured(s, pre, i, len);
    let (i2, len2) = choose|i: int, len: int|
        leftmost_greedy(s, pre, suf, i, len) && v2 == captured(s, pre, i, len);
    lemma_leftmost_greedy_unique(s, pre, suf, i1, len1, i2, len2);
}

/// A capture is never empty: the pattern asks for at least one character
/// between the prefix and the suffix.
pub proof fn lemma_captured_value_nonempty(
    s: Seq<char>,
    pre: Seq<char>,
    suf: Seq<char>,
    v: Seq<char>,
)
    requires
        is_captured_value(s, pre, suf, v),
    ensures
        v.len() >= 1,
{
    let (i, len) = choose|i: int, len: int|
        leftmost_greedy(s, pre, suf, i, len) && v == captured(s, pre, i, len);
}

/// A match at `i` with capture length `l` puts the suffix right after the
/// capture, at `i + |pre| + l`.
proof fn lemma_match_gives_suffix(s: Seq<char>, pre: Seq<char>, suf: Seq<char>, i: int, l: int)
    requires
        match_at(s, pre, suf, i, l),
    ensures
        occurs_at(s, suf, i + pre.len() + l),
{
}

/// The capture of a match at `i` ends no later than the first newline after
/// the capture's start, and leaves room for the suffix.
proof fn lemma_match_end_bounded(
    s: Seq<char>,
    pre: Seq<char>,
    suf: Seq<char>,
    i: int,
    l: int,
    eol: int,
)
    requires
        match_at(s, pre, suf, i, l),
        i + pre.len() <= eol <= s.len(),
        forall|k: int| i + pre.len() <= k < eol ==> s[k] != '\n',
        eol < s.len() ==> s[eol] == '\n',
    ensures
        i + pre.len() + l <= eol,
        i + pre.len() + l + suf.len() <= s.len(),
{
    if i + pre.len() + l > eol {
        assert(s[eol] != '\n');
    }
}

} // verus!
