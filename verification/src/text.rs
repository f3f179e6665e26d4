//! Character-level text utilities: whitespace trimming and clipping.
//!
//! All reasoning is over `Seq<char>` (Unicode scalar values), so a clip
//! can never split a multi-byte character.

use vstd::prelude::*;
use vstd::string::StrSliceExecFns;
use vstd::string::StringExecFns;

verus! {

/// Whether `c` has the Unicode `White_Space` property, as
/// `char::is_whitespace` decides it.
pub uninterp spec fn white_char(c: char) -> bool;

/// Relies on `char::is_whitespace`: true exactly for characters with the
/// Unicode `White_Space` property, a function of the character alone.
/// Its documentation plainly gives the facts below: space, tab, line
/// feed and carriage return have the property, and ASCII letters and
/// digits do not.
#[verifier::external_body]
pub fn is_white(c: char) -> (r: bool)
    ensures
        r == white_char(c),
        c == ' ' || c == '\t' || c == '\n' || c == '\r' ==> r,
        ('0' <= c && c <= '9') || ('A' <= c && c <= 'Z') || ('a' <= c && c <= 'z') ==> !r,
{
    c.is_whitespace()
}

/// `s` with its leading whitespace removed.
pub open spec fn trim_start_spec(s: Seq<char>) -> Seq<char>
    decreases s.len(),
{
    if s.len() > 0 && white_char(s[0]) {
        trim_start_spec(s.drop_first())
    } else {
        s
    }
}

/// `s` with its trailing whitespace removed.
pub open spec fn trim_end_spec(s: Seq<char>) -> Seq<char>
    decreases s.len(),
{
    if s.len() > 0 && white_char(s[s.len() - 1]) {
        trim_end_spec(s.drop_last())
    } else {
        s
    }
}

/// `s` with leading and trailing whitespace removed, as `str::trim`
/// computes it.
pub open spec fn trim_spec(s: Seq<char>) -> Seq<char> {
    trim_end_spec(trim_start_spec(s))
}

/// Every character of `s` is whitespace (vacuously true of the empty
/// sequence).
pub open spec fn all_white(s: Seq<char>) -> bool {
    forall|i: int| 0 <= i < s.len() ==> white_char(s[i])
}

/// `s` truncated to its first `n` characters.
pub open spec fn clip(s: Seq<char>, n: int) -> Seq<char> {
    if s.len() <= n {
        s
    } else {
        s.subrange(0, n)
    }
}

proof fn lemma_trim_start_of_prefix_white(s: Seq<char>, lo: int)
    requires
        0 <= lo <= s.len(),
        forall|i: int| 0 <= i < lo ==> white_char(s[i]),
    ensures
        trim_start_spec(s) == trim_start_spec(s.subrange(lo, s.len() as int)),
    decreases lo,
{
    if lo > 0 {
        assert(s.subrange(1, s.len() as int) =~= s.drop_first());
        lemma_trim_start_of_prefix_white(s.drop_first(), lo - 1);
        assert(s.drop_first().subrange(lo - 1, s.drop_first().len() as int) =~= s.subrange(
            lo,
            s.len() as int,
        ));
    } else {
        assert(s.subrange(0, s.len() as int) =~= s);
    }
}

proof fn lemma_trim_end_of_suffix_white(s: Seq<char>, hi: int)
    requires
        0 <= hi <= s.len(),
        forall|i: int| hi <= i < s.len() ==> white_char(s[i]),
    ensures
        trim_end_spec(s) == trim_end_spec(s.subrange(0, hi)),
    decreases s.len() - hi,
{
    if hi < s.len() {
        assert(s.subrange(0, s.len() - 1) =~= s.drop_last());
        lemma_trim_end_of_suffix_white(s.drop_last(), hi);
        assert(s.drop_last().subrange(0, hi) =~= s.subrange(0, hi));
    } else {
        assert(s.subrange(0, s.len() as int) =~= s);
    }
}

/// If every character of `s` is whitespace, trimming leaves nothing.
pub proof fn lemma_trim_all_white(s: Seq<char>)
    requires
        all_white(s),
    ensures
        trim_spec(s).len() == 0,
    decreases s.len(),
{
    if s.len() > 0 {
        lemma_trim_all_white(s.drop_first());
    }
}

/// Trims leading and trailing whitespace, as `str::trim` does, but in
/// verified code over character indices.
pub fn trim_str(s: &str) -> (r: String)
    ensures
        r@ == trim_spec(s@),
{
    let n: usize = s.unicode_len();
    let mut lo: usize = 0;
    let mut at_text: bool = false;
    while lo < n && !at_text
        invariant
            0 <= lo <= n,
            n == s@.len(),
            forall|i: int| 0 <= i < lo ==> white_char(s@[i]),
            at_text ==> lo < n && !white_char(s@[lo as int]),
        decreases n - lo + (if at_text { 0int } else { 1int }),
    {
        if is_white(s.get_char(lo)) {
            lo = lo + 1;
        } else {
            at_text = true;
        }
    }
    let mut hi: usize = n;
    let mut at_tail: bool = false;
    while hi > lo && !at_tail
        invariant
            0 <= lo <= hi <= n,
            n == s@.len(),
            forall|i: int| 0 <= i < lo ==> white_char(s@[i]),
            forall|i: int| hi <= i < n ==> white_char(s@[i]),
            at_text ==> lo < n && !white_char(s@[lo as int]),
            at_tail ==> hi > lo && !white_char(s@[hi - 1]),
        decreases hi + (if at_tail { 0int } else { 1int }),
    {
        if is_white(s.get_char(hi - 1)) {
            hi = hi - 1;
        } else {
            at_tail = true;
        }
    }
    proof {
        lemma_trim_start_of_prefix_white(s@, lo as int);
        let t = s@.subrange(lo as int, n as int);
        if lo < n && hi == lo {
            // the scan from the right stopped at `lo`, so everything from
            // `lo` on is whitespace too, which contradicts the left scan's
            // stopping condition unless the suffix is empty
            assert(white_char(s@[lo as int]));
            assert(!white_char(s@[lo as int]));
        }
        if hi > lo {
            assert(!white_char(t[0])) by {
                assert(t[0] == s@[lo as int]);
            }
            assert(trim_start_spec(t) == t);
            lemma_trim_end_of_suffix_white(t, hi - lo);
            assert(t.subrange(0, hi - lo) =~= s@.subrange(lo as int, hi as int));
            let u = s@.subrange(lo as int, hi as int);
            assert(!white_char(u[u.len() - 1])) by {
                assert(u[u.len() - 1] == s@[hi - 1]);
            }
            assert(trim_end_spec(u) == u);
        } else {
            assert(t =~= Seq::<char>::empty());
            assert(trim_start_spec(t) == t);
            assert(trim_end_spec(t) == t);
            assert(t =~= s@.subrange(lo as int, hi as int));
        }
    }
    let piece = s.substring_char(lo, hi);
    String::from_str(piece)
}

/// Counts the characters of `s`; `str::len` would count bytes instead.
pub fn char_count(s: &str) -> (n: usize)
    ensures
        n == s@.len(),
{
    s.unicode_len()
}

/// Truncates `s` to its first `limit` characters, whole characters only.
pub fn clip_chars(s: String, limit: usize) -> (r: String)
    ensures
        r@ == clip(s@, limit as int),
{
    let n: usize = s.as_str().unicode_len();
    if n <= limit {
        s
    } else {
        let piece = s.as_str().substring_char(0, limit);
        String::from_str(piece)
    }
}

} // verus!
