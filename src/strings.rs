//! Facts about text that the port identification rules need.
use vstd::prelude::*;

verus! {

/// `pattern` occurs somewhere in `s` as a contiguous run.
pub open spec fn occurs_in(pattern: Seq<char>, s: Seq<char>) -> bool {
    exists|i: int| 0 <= i && i + pattern.len() <= s.len() && #[trigger] s.subrange(i, i + pattern.len()) == pattern
}

/// Relies on str::contains with a `&str` pattern: true exactly when the pattern
/// occurs in `s`.
#[verifier::external_body]
pub fn str_contains(s: &str, pattern: &str) -> (r: bool)
    ensures
        r == occurs_in(pattern@, s@),
{
    s.contains(pattern)
}

} // verus!
