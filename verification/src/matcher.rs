//! Pattern matching for event matchers.
//!
//! A matcher pattern is evaluated against a value with these rule forms,
//! first applicable rule wins:
//! - the literal `*` matches any value;
//! - a pattern containing `|` is split on `|`, each alternative trimmed of
//!   surrounding whitespace, and matches if any alternative matches;
//! - a pattern ending in `.*` is a prefix match on the rest of the pattern;
//! - anything else matches by exact string equality.

use vstd::prelude::*;

use crate::strutil::{find_char, first_index_of, spec_trim, str_eq, trim_str};

verus! {

/// Whether a single alternative (no `|` inside) matches `value`:
/// a trailing `.*` makes it a prefix match, otherwise it is exact equality.
pub open spec fn single_matches(pattern: Seq<char>, value: Seq<char>) -> bool {
    if pattern.len() >= 2 && pattern[pattern.len() - 2] == '.' && pattern[pattern.len() - 1]
        == '*' {
        value.len() >= pattern.len() - 2 && value.take(pattern.len() - 2) == pattern.take(
            pattern.len() - 2,
        )
    } else {
        pattern == value
    }
}

/// Whether some `|`-separated alternative of `pattern`, trimmed, matches
/// `value`. Splitting is on every `|`, so alternatives never contain `|`.
pub open spec fn any_alternative_matches(pattern: Seq<char>, value: Seq<char>) -> bool
    decreases pattern.len(),
{
    let i = first_index_of(pattern, '|');
    if 0 <= i < pattern.len() {
        single_matches(spec_trim(pattern.take(i)), value) || any_alternative_matches(
            pattern.skip(i + 1),
            value,
        )
    } else {
        single_matches(spec_trim(pattern), value)
    }
}

/// What a matcher pattern means: `*` matches anything; a pattern with a `|`
/// matches if any trimmed alternative matches; any other pattern follows the
/// single-pattern rules, untrimmed.
pub open spec fn pattern_matches(pattern: Seq<char>, value: Seq<char>) -> bool {
    if pattern.len() == 1 && pattern[0] == '*' {
        true
    } else if first_index_of(pattern, '|') >= 0 {
        any_alternative_matches(pattern, value)
    } else {
        single_matches(pattern, value)
    }
}

/// An exact pattern equals only its literal value: a pattern that is not
/// `*`, has no `|` in it and does not end in `.*` matches a value exactly
/// when it equals it.
pub proof fn lemma_exact_pattern(pattern: Seq<char>, value: Seq<char>)
    requires
        !(pattern.len() == 1 && pattern[0] == '*'),
        first_index_of(pattern, '|') < 0,
        !(pattern.len() >= 2 && pattern[pattern.len() - 2] == '.' && pattern[pattern.len() - 1]
            == '*'),
    ensures
        pattern_matches(pattern, value) == (pattern == value),
{
}

/// Match a single pattern (no pipes): a trailing `.*` tests the rest of the
/// pattern as a prefix of `value`; otherwise the pattern must equal `value`.
pub fn matches_single_pattern(pattern: &str, value: &str) -> (r: bool)
    ensures
        r == single_matches(pattern@, value@),
{
    let plen = pattern.unicode_len();
    if plen >= 2 && pattern.get_char(plen - 2) == '.' && pattern.get_char(plen - 1) == '*' {
        let prefix_len = plen - 2;
        let vlen = value.unicode_len();
        if vlen < prefix_len {
            return false;
        }
        let mut i: usize = 0;
        while i < prefix_len
            invariant
                plen == pattern@.len(),
                vlen == value@.len(),
                prefix_len == plen - 2,
                vlen >= prefix_len,
                i <= prefix_len,
                forall|j: int| 0 <= j < i ==> value@[j] == pattern@[j],
            decreases prefix_len - i,
        {
            if value.get_char(i) != pattern.get_char(i) {
                assert(value@.take(prefix_len as int)[i as int] != pattern@.take(
                    prefix_len as int,
                )[i as int]);
                return false;
            }
            i += 1;
        }
        proof {
            assert(value@.take(prefix_len as int) =~= pattern@.take(prefix_len as int));
        }
        true
    } else {
        str_eq(pattern, value)
    }
}

/// Evaluate a matcher pattern against a value: `*` matches anything, `|`
/// separates alternatives (trimmed), `.*` at the end of an alternative makes
/// it a prefix match, and anything else is exact equality.
pub fn matches_pattern(pattern: &str, value: &str) -> (r: bool)
    ensures
        r == pattern_matches(pattern@, value@),
{
    let plen = pattern.unicode_len();
    if plen == 1 && pattern.get_char(0) == '*' {
        return true;
    }
    match find_char(pattern, '|') {
        None => matches_single_pattern(pattern, value),
        Some(_) => {
            let mut rest: &str = pattern;
            loop
                invariant
                    any_alternative_matches(rest@, value@) == pattern_matches(
                        pattern@,
                        value@,
                    ),
                decreases rest@.len(),
            {
                let rlen = rest.unicode_len();
                match find_char(rest, '|') {
                    Some(i) => {
                        let head = rest.substring_char(0, i);
                        let alt = trim_str(head);
                        if matches_single_pattern(alt, value) {
                            return true;
                        }
                        assert(head@ == rest@.take(i as int));
                        rest = rest.substring_char(i + 1, rlen);
                    },
                    None => {
                        let alt = trim_str(rest);
                        return matches_single_pattern(alt, value);
                    },
                }
            }
        },
    }
}

} // verus!
