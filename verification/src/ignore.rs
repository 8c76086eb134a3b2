//! Patterns of an ignore file, turned into patterns for matching paths.

use vstd::prelude::*;
use crate::text::chars_of;

verus! {

/// The glob pattern for a pattern of an ignore file: a pattern that begins
/// with a slash holds from the root and loses the slash; any other may
/// match at any depth.
pub open spec fn glob_of(pattern: Seq<char>) -> Seq<char> {
    if pattern.len() > 0 && pattern[0] == '/' {
        pattern.subrange(1, pattern.len() as int)
    } else {
        "**/"@ + pattern
    }
}

/// Computes `glob_of`.
pub fn convert_gitignore_to_glob(pattern: &str) -> (r: String)
    ensures
        r@ == glob_of(pattern@),
{
    let chars = chars_of(pattern);
    if chars.len() > 0 && chars[0] == '/' {
        String::from_str(pattern.substring_char(1, chars.len()))
    } else {
        String::from_str("**/").concat(pattern)
    }
}

} // verus!
