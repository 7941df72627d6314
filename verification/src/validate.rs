//! Validation of project names and account names.
//!
//! A project name follows Cargo's naming conventions: after trimming it must
//! be non-empty, open with an ASCII letter or `_`, and continue with ASCII
//! letters, digits, `-` or `_`. An account name need only be non-empty after
//! trimming. The exact error message for every rejected input is part of the
//! contract.

use vstd::prelude::*;

use crate::text::is_digit;
use crate::text::is_digit_char;
use crate::text::is_name;
use crate::text::is_name_char;
use crate::text::is_name_start;
use crate::text::is_name_start_char;
use crate::text::trim_str;
use crate::text::trimmed;

verus! {

/// A valid project name: non-empty, opened by a letter or `_`, continued by
/// letters, digits, `-` or `_`.
pub open spec fn is_valid_project_name(s: Seq<char>) -> bool {
    &&& s.len() > 0
    &&& is_name_start_char(s[0])
    &&& forall|i: int| 1 <= i < s.len() ==> is_name_char(#[trigger] s[i])
}

/// The position of the first character after the opening one that a project
/// name may not contain (or the length, when every character is allowed).
pub open spec fn first_invalid_from(s: Seq<char>, i: int) -> int
    recommends
        1 <= i <= s.len(),
    decreases s.len() - i,
{
    if i < 1 || i >= s.len() {
        s.len() as int
    } else if !is_name_char(s[i]) {
        i
    } else {
        first_invalid_from(s, i + 1)
    }
}

/// The message a rejected project name comes with.
pub open spec fn project_name_error(t: Seq<char>) -> Seq<char> {
    if t.len() == 0 {
        "project name cannot be empty"@
    } else if is_digit_char(t[0]) {
        "the name cannot start with a digit: '"@ + seq![t[0]] + "'"@
    } else if !is_name_start_char(t[0]) {
        "the first character must be a letter or `_`, found: '"@ + seq![t[0]] + "'"@
    } else {
        "invalid character '"@ + seq![t[first_invalid_from(t, 1)]]
            + "': only letters, numbers, `-`, or `_` are allowed"@
    }
}

/// When the characters before `i` are allowed and the one at `i` is not,
/// `i` is the first disallowed position.
proof fn lemma_first_invalid_is(s: Seq<char>, i: int, k: int)
    requires
        1 <= k <= i < s.len(),
        forall|j: int| k <= j < i ==> is_name_char(#[trigger] s[j]),
        !is_name_char(s[i]),
    ensures
        first_invalid_from(s, k) == i,
    decreases i - k,
{
    if k < i {
        lemma_first_invalid_is(s, i, k + 1);
    }
}

/// Checks a proposed project name, following Cargo's naming conventions.
///
/// The input is trimmed first. The result is the trimmed name exactly when
/// it is valid, and otherwise the error message that names what is wrong:
/// emptiness, a digit or other disallowed opening character, or the first
/// later character outside the allowed set.
pub fn parse_project_name(name: &str) -> (r: Result<String, String>)
    ensures
        ({
            let t = trimmed(name@);
            match r {
                Ok(v) => is_valid_project_name(t) && v@ == t,
                Err(m) => !is_valid_project_name(t) && m@ == project_name_error(t),
            }
        }),
{
    let t = trim_str(name);
    let n = t.as_str().unicode_len();
    if n == 0 {
        return Err("project name cannot be empty".to_owned());
    }
    let first = t.as_str().get_char(0);
    if is_digit(first) {
        let mut m = "the name cannot start with a digit: '".to_owned();
        m.append(t.as_str().substring_char(0, 1));
        m.append("'");
        proof {
            assert(t@.subrange(0, 1) =~= seq![t@[0]]);
        }
        return Err(m);
    }
    if !is_name_start(first) {
        let mut m = "the first character must be a letter or `_`, found: '".to_owned();
        m.append(t.as_str().substring_char(0, 1));
        m.append("'");
        proof {
            assert(t@.subrange(0, 1) =~= seq![t@[0]]);
        }
        return Err(m);
    }
    let mut i: usize = 1;
    while i < n
        invariant
            t@ == trimmed(name@),
            n == t@.len(),
            1 <= i <= n,
            is_name_start_char(t@[0]),
            !is_digit_char(t@[0]),
            forall|j: int| 1 <= j < i ==> is_name_char(#[trigger] t@[j]),
        decreases n - i,
    {
        if !is_name(t.as_str().get_char(i)) {
            let mut m = "invalid character '".to_owned();
            m.append(t.as_str().substring_char(i, i + 1));
            m.append("': only letters, numbers, `-`, or `_` are allowed");
            proof {
                assert(t@.subrange(i as int, i + 1) =~= seq![t@[i as int]]);
                lemma_first_invalid_is(t@, i as int, 1);
            }
            return Err(m);
        }
        i = i + 1;
    }
    Ok(t)
}

/// Checks a proposed account name: any input that is non-empty after
/// trimming is accepted, and returned trimmed.
pub fn parse_github_username(account_name: &str) -> (r: Result<String, String>)
    ensures
        ({
            let t = trimmed(account_name@);
            match r {
                Ok(v) => t.len() > 0 && v@ == t,
                Err(m) => t.len() == 0 && m@ == "GitHub account name cannot be empty"@,
            }
        }),
{
    let t = trim_str(account_name);
    if t.as_str().unicode_len() == 0 {
        Err("GitHub account name cannot be empty".to_owned())
    } else {
        Ok(t)
    }
}

/// Checks a proposed account name; the same rule as [`parse_github_username`].
pub fn parse_github_account(account_name: &str) -> (r: Result<String, String>)
    ensures
        ({
            let t = trimmed(account_name@);
            match r {
                Ok(v) => t.len() > 0 && v@ == t,
                Err(m) => t.len() == 0 && m@ == "GitHub account name cannot be empty"@,
            }
        }),
{
    parse_github_username(account_name)
}

} // verus!
