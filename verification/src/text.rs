//! Small verified helpers for working with strings by characters.

use vstd::prelude::*;
use vstd::string::StrSliceExecFns;

verus! {

/// Exact character-for-character equality of two string slices.
pub fn str_eq(a: &str, b: &str) -> (equal: bool)
    ensures
        equal == (a@ == b@),
{
    let a_string: String = a.to_owned();
    let b_string: String = b.to_owned();
    a_string == b_string
}

/// Whether `s` begins with the characters of `prefix`.
pub open spec fn spec_starts_with(s: Seq<char>, prefix: Seq<char>) -> bool {
    s.len() >= prefix.len() && s.subrange(0, prefix.len() as int) == prefix
}

/// `s` with every leading occurrence of `prefix` removed; `s` itself when
/// `prefix` is empty.
pub open spec fn spec_trim_prefix(s: Seq<char>, prefix: Seq<char>) -> Seq<char>
    decreases s.len(),
{
    if prefix.len() > 0 && s.len() >= prefix.len() && s.subrange(0, prefix.len() as int)
        == prefix {
        spec_trim_prefix(s.skip(prefix.len() as int), prefix)
    } else {
        s
    }
}

/// Removes every leading occurrence of `prefix` from `s`.
pub fn trim_prefix<'a>(s: &'a str, prefix: &str) -> (trimmed: &'a str)
    ensures
        trimmed@ == spec_trim_prefix(s@, prefix@),
    decreases s@.len(),
{
    let n = s.unicode_len();
    let prefix_len = prefix.unicode_len();
    if prefix_len > 0 && n >= prefix_len {
        let head = s.substring_char(0, prefix_len);
        if str_eq(head, prefix) {
            let rest = s.substring_char(prefix_len, n);
            proof {
                assert(rest@ =~= s@.skip(prefix@.len() as int));
            }
            return trim_prefix(rest, prefix);
        }
    }
    s
}

/// Whether `s` begins with `prefix`, by characters.
pub fn str_starts_with(s: &str, prefix: &str) -> (result: bool)
    ensures
        result == spec_starts_with(s@, prefix@),
{
    let s_len = s.unicode_len();
    let prefix_len = prefix.unicode_len();
    if s_len >= prefix_len {
        let head = s.substring_char(0, prefix_len);
        str_eq(head, prefix)
    } else {
        false
    }
}

} // verus!
