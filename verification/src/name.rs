//! Symbol-name well-formedness.
//!
//! The operating system's symbol lookup takes a sentinel-terminated byte
//! string, so every name handed to a resolution operation must carry exactly
//! one NUL character, as its final character. Violating that is a programmer
//! error, which the resolution operations rule out by precondition.

use vstd::prelude::*;

verus! {

/// A well-formed symbol name: non-empty, ends with the NUL sentinel, and
/// contains no NUL anywhere before that final terminator.
pub open spec fn valid_symbol_name(s: Seq<char>) -> bool {
    &&& s.len() >= 1
    &&& s[s.len() - 1] == '\0'
    &&& forall|i: int| 0 <= i < s.len() - 1 ==> s[i] != '\0'
}

/// Decides `valid_symbol_name` for a given name.
pub fn is_valid_symbol_name(name: &str) -> (b: bool)
    ensures
        b == valid_symbol_name(name@),
{
    let n = name.unicode_len();
    if n == 0 {
        return false;
    }
    if name.get_char(n - 1) != '\0' {
        return false;
    }
    let mut i: usize = 0;
    while i < n - 1
        invariant
            n == name@.len(),
            1 <= n,
            i <= n - 1,
            name@[n - 1] == '\0',
            forall|j: int| 0 <= j < i ==> name@[j] != '\0',
        decreases n - 1 - i,
    {
        if name.get_char(i) == '\0' {
            return false;
        }
        i = i + 1;
    }
    true
}

/// The name without its trailing sentinel, for use in diagnostics.
pub fn strip_sentinel(name: &str) -> (r: &str)
    requires
        valid_symbol_name(name@),
    ensures
        r@ == name@.subrange(0, name@.len() - 1),
{
    let n = name.unicode_len();
    name.substring_char(0, n - 1)
}

} // verus!
