//! The literal text substitution engine.
//!
//! [`substitute`] rewrites every non-overlapping occurrence of a pattern,
//! scanning left to right, and reports whether the pattern occurred at all.
//! The specification [`replaced`] pins the result down exactly, and the
//! engine's laws — substitution without an occurrence changes nothing, and
//! substitution is idempotent once the result is free of the pattern — are
//! proved below.

use vstd::prelude::*;

verus! {

/// The pattern occurs in `text` at position `i`.
pub open spec fn match_at(text: Seq<char>, pat: Seq<char>, i: int) -> bool {
    &&& 0 <= i
    &&& i + pat.len() <= text.len()
    &&& text.subrange(i, i + pat.len() as int) == pat
}

/// The pattern occurs somewhere in `text`.
pub open spec fn has_match(text: Seq<char>, pat: Seq<char>) -> bool {
    exists|i: int| match_at(text, pat, i)
}

/// `text` with every non-overlapping occurrence of `pat`, found scanning
/// left to right, replaced by `rep`. A pattern longer than the text (or an
/// empty one) leaves the text as it is.
pub open spec fn replaced(text: Seq<char>, pat: Seq<char>, rep: Seq<char>) -> Seq<char>
    decreases text.len(),
{
    if pat.len() == 0 || pat.len() > text.len() {
        text
    } else if text.subrange(0, pat.len() as int) == pat {
        rep + replaced(text.skip(pat.len() as int), pat, rep)
    } else {
        seq![text[0]] + replaced(text.skip(1), pat, rep)
    }
}

/// Whether the pattern occurs in `text` at position `i`; the text and
/// pattern lengths are passed in so that they are counted once.
fn matches_at(text: &str, pat: &str, i: usize, n: usize, m: usize) -> (b: bool)
    requires
        n == text@.len(),
        m == pat@.len(),
        i + m <= n,
    ensures
        b == match_at(text@, pat@, i as int),
{
    let mut j: usize = 0;
    while j < m
        invariant
            n == text@.len(),
            m == pat@.len(),
            i + m <= n,
            j <= m,
            forall|k: int| 0 <= k < j ==> text@[i + k] == #[trigger] pat@[k],
        decreases m - j,
    {
        if text.get_char(i + j) != pat.get_char(j) {
            assert(text@.subrange(i as int, i + m) != pat@) by {
                assert(text@.subrange(i as int, i + m)[j as int] == text@[i + j]);
            }
            return false;
        }
        j = j + 1;
    }
    assert(text@.subrange(i as int, i + m) =~= pat@);
    true
}

/// Replaces every non-overlapping occurrence of `pattern` in `text` by
/// `replacement`, scanning left to right, and reports whether `pattern`
/// occurred at all.
pub fn substitute(text: &str, pattern: &str, replacement: &str) -> (r: (String, bool))
    requires
        pattern@.len() > 0,
    ensures
        r.0@ == replaced(text@, pattern@, replacement@),
        r.1 == has_match(text@, pattern@),
{
    let n = text.unicode_len();
    let m = pattern.unicode_len();
    let mut out = String::new();
    let mut found = false;
    let mut i: usize = 0;
    proof {
        assert(text@.skip(0) =~= text@);
        assert(Seq::<char>::empty() + replaced(text@, pattern@, replacement@) =~= replaced(
            text@,
            pattern@,
            replacement@,
        ));
    }
    while i < n
        invariant
            n == text@.len(),
            m == pattern@.len(),
            m > 0,
            i <= n,
            out@ + replaced(text@.skip(i as int), pattern@, replacement@) == replaced(
                text@,
                pattern@,
                replacement@,
            ),
            found ==> has_match(text@, pattern@),
            !found ==> forall|k: int| k < i ==> !match_at(text@, pattern@, k),
        decreases n - i,
    {
        let ghost tail = text@.skip(i as int);
        if m <= n - i && matches_at(text, pattern, i, n, m) {
            out.append(replacement);
            proof {
                assert(tail.subrange(0, m as int) =~= text@.subrange(i as int, i + m));
                assert(tail.skip(m as int) =~= text@.skip(i + m));
                assert(replaced(tail, pattern@, replacement@) == replacement@ + replaced(
                    text@.skip(i + m),
                    pattern@,
                    replacement@,
                ));
                assert(out@ + replaced(text@.skip(i + m), pattern@, replacement@) =~= replaced(
                    text@,
                    pattern@,
                    replacement@,
                ));
            }
            i = i + m;
            found = true;
        } else {
            out.append(text.substring_char(i, i + 1));
            proof {
                assert(!match_at(text@, pattern@, i as int));
                if tail.len() >= m {
                    assert(tail.subrange(0, m as int) =~= text@.subrange(i as int, i + m));
                    assert(tail.subrange(0, m as int) != pattern@);
                }
                assert(tail.skip(1) =~= text@.skip(i + 1));
                assert(text@.subrange(i as int, i + 1) =~= seq![tail[0]]);
                assert(replaced(tail, pattern@, replacement@) == seq![tail[0]] + replaced(
                    text@.skip(i + 1),
                    pattern@,
                    replacement@,
                ));
                assert(out@ + replaced(text@.skip(i + 1), pattern@, replacement@) =~= replaced(
                    text@,
                    pattern@,
                    replacement@,
                ));
            }
            i = i + 1;
        }
    }
    proof {
        assert(text@.skip(n as int) =~= Seq::<char>::empty());
        assert(out@ + Seq::<char>::empty() =~= out@);
        if !found {
            assert forall|k: int| !match_at(text@, pattern@, k) by {
                if 0 <= k && k + m <= n {
                    assert(k < n);
                }
            }
        }
    }
    (out, found)
}

/// A match inside the tail of a text is a match inside the text.
proof fn lemma_match_in_skip(text: Seq<char>, pat: Seq<char>, d: int, k: int)
    requires
        0 <= d <= text.len(),
        match_at(text.skip(d), pat, k),
    ensures
        match_at(text, pat, d + k),
{
    assert(text.subrange(d + k, d + k + pat.len() as int) =~= text.skip(d).subrange(
        k,
        k + pat.len() as int,
    ));
}

/// Substitution on a text in which the pattern does not occur is the
/// identity.
pub proof fn lemma_substitute_absent(text: Seq<char>, pat: Seq<char>, rep: Seq<char>)
    requires
        pat.len() > 0,
        !has_match(text, pat),
    ensures
        replaced(text, pat, rep) == text,
    decreases text.len(),
{
    if pat.len() > text.len() {
    } else {
        assert(!match_at(text, pat, 0));
        assert(text.subrange(0, pat.len() as int) != pat);
        assert(!has_match(text.skip(1), pat)) by {
            if has_match(text.skip(1), pat) {
                let k = choose|k: int| match_at(text.skip(1), pat, k);
                lemma_match_in_skip(text, pat, 1, k);
            }
        }
        lemma_substitute_absent(text.skip(1), pat, rep);
        assert(seq![text[0]] + text.skip(1) =~= text);
    }
}

/// A match at or after position `d` is still a match once the first `d`
/// characters are dropped.
proof fn lemma_match_to_skip(text: Seq<char>, pat: Seq<char>, d: int, k: int)
    requires
        0 <= d <= k,
        match_at(text, pat, k),
    ensures
        match_at(text.skip(d), pat, k - d),
{
    assert(text.skip(d).subrange(k - d, k - d + pat.len() as int) =~= text.subrange(
        k,
        k + pat.len() as int,
    ));
}

/// A replacement no longer than the pattern never lengthens the text.
proof fn lemma_replaced_len_le(text: Seq<char>, pat: Seq<char>, rep: Seq<char>)
    requires
        0 < pat.len(),
        rep.len() <= pat.len(),
    ensures
        replaced(text, pat, rep).len() <= text.len(),
    decreases text.len(),
{
    if pat.len() > text.len() {
    } else if text.subrange(0, pat.len() as int) == pat {
        lemma_replaced_len_le(text.skip(pat.len() as int), pat, rep);
    } else {
        lemma_replaced_len_le(text.skip(1), pat, rep);
    }
}

/// A replacement at least as long as the pattern never shortens the text.
proof fn lemma_replaced_len_ge(text: Seq<char>, pat: Seq<char>, rep: Seq<char>)
    requires
        0 < pat.len(),
        rep.len() >= pat.len(),
    ensures
        replaced(text, pat, rep).len() >= text.len(),
    decreases text.len(),
{
    if pat.len() > text.len() {
    } else if text.subrange(0, pat.len() as int) == pat {
        lemma_replaced_len_ge(text.skip(pat.len() as int), pat, rep);
    } else {
        lemma_replaced_len_ge(text.skip(1), pat, rep);
    }
}

/// Substitution with a replacement other than the pattern itself changes
/// every text in which the pattern occurs.
proof fn lemma_replaced_changes(text: Seq<char>, pat: Seq<char>, rep: Seq<char>)
    requires
        0 < pat.len(),
        rep != pat,
        has_match(text, pat),
    ensures
        replaced(text, pat, rep) != text,
    decreases text.len(),
{
    let m = pat.len() as int;
    let k = choose|k: int| match_at(text, pat, k);
    if text.subrange(0, m) == pat {
        let r = replaced(text, pat, rep);
        if rep.len() == pat.len() {
            assert(exists|j: int| 0 <= j < m && rep[j] != pat[j]) by {
                if forall|j: int| 0 <= j < m ==> rep[j] == #[trigger] pat[j] {
                    assert(rep =~= pat);
                }
            }
            let j = choose|j: int| 0 <= j < m && rep[j] != pat[j];
            assert(r[j] == rep[j]);
            assert(text[j] == pat[j]);
        } else if rep.len() < pat.len() {
            lemma_replaced_len_le(text.skip(m), pat, rep);
            assert(r.len() < text.len());
        } else {
            lemma_replaced_len_ge(text.skip(m), pat, rep);
            assert(r.len() > text.len());
        }
    } else {
        assert(!match_at(text, pat, 0));
        assert(k >= 1);
        lemma_match_to_skip(text, pat, 1, k);
        lemma_replaced_changes(text.skip(1), pat, rep);
        if replaced(text, pat, rep) == text {
            assert(replaced(text.skip(1), pat, rep) =~= text.skip(1)) by {
                assert(seq![text[0]] + replaced(text.skip(1), pat, rep) == text);
            }
        }
    }
}

/// The exclusion in [`lemma_substitute_idempotent`] is exact: when the
/// first pass leaves an occurrence of the pattern behind, a second pass
/// really does change the text again.
pub proof fn lemma_substitute_seam_not_idempotent(text: Seq<char>, pat: Seq<char>, rep: Seq<char>)
    requires
        pat.len() > 0,
        !has_match(rep, pat),
        has_match(replaced(text, pat, rep), pat),
    ensures
        replaced(replaced(text, pat, rep), pat, rep) != replaced(text, pat, rep),
{
    assert(rep != pat) by {
        if rep == pat {
            assert(match_at(rep, pat, 0)) by {
                assert(rep.subrange(0, pat.len() as int) =~= pat);
            }
        }
    }
    lemma_replaced_changes(replaced(text, pat, rep), pat, rep);
}

/// Substitution is idempotent: once the first pass has left a text free of
/// the pattern, a second pass with the same pattern and replacement gives
/// the same text again. The hypothesis that the replacement does not
/// contain the pattern comes from the rule this law describes; the first
/// pass can still leave a fresh occurrence spanning the seam around a
/// replacement, so texts in which it does are excluded.
pub proof fn lemma_substitute_idempotent(text: Seq<char>, pat: Seq<char>, rep: Seq<char>)
    requires
        pat.len() > 0,
        !has_match(rep, pat),
        !has_match(replaced(text, pat, rep), pat),
    ensures
        replaced(replaced(text, pat, rep), pat, rep) == replaced(text, pat, rep),
{
    lemma_substitute_absent(replaced(text, pat, rep), pat, rep);
}

} // verus!
