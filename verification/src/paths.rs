//! Filesystem paths as text.
//!
//! The library never touches the filesystem; it only computes the paths that
//! its driver will use. Paths are held as `String`s and taken apart and put
//! together by the platform's own path rules, reached through the trusted
//! functions of this module. Each has a name for what it returns, so that
//! contracts elsewhere can say exactly which path a function computes.

use vstd::prelude::*;
use std::path::Path;
use crate::text::chars_of;

verus! {

/// Whether the platform counts `path` as absolute.
pub uninterp spec fn path_is_absolute(path: Seq<char>) -> bool;

/// `path` resolved against `base` by the platform's rules.
pub uninterp spec fn path_join(base: Seq<char>, path: Seq<char>) -> Seq<char>;

/// `path` with the extension of its final component replaced by `ext`.
pub uninterp spec fn path_with_extension(path: Seq<char>, ext: Seq<char>) -> Seq<char>;

/// The final component of `path`, if it has one.
pub uninterp spec fn path_file_name(path: Seq<char>) -> Option<Seq<char>>;

/// The final component of `path` without its extension, if it has one.
pub uninterp spec fn path_file_stem(path: Seq<char>) -> Option<Seq<char>>;

/// The extension of the final component of `path`, if it has one.
pub uninterp spec fn path_extension(path: Seq<char>) -> Option<Seq<char>>;

/// The directory that holds the final component of `path`, if it has one.
pub uninterp spec fn path_parent(path: Seq<char>) -> Option<Seq<char>>;

/// `path` without the leading `base`, if it begins with it.
pub uninterp spec fn path_strip_prefix(path: Seq<char>, base: Seq<char>) -> Option<Seq<char>>;

/// `path` as the standard library writes a path for a reader of messages:
/// in double quotes, with what cannot stand in them escaped.
pub uninterp spec fn path_debug(path: Seq<char>) -> Seq<char>;

/// The view of an optional string.
pub open spec fn opt_view(s: Option<String>) -> Option<Seq<char>> {
    match s {
        Some(s) => Some(s@),
        None => None,
    }
}

/// Trusted: `std::path::Path::is_absolute`. The result is the platform's
/// answer for this text, named `path_is_absolute`.
#[verifier::external_body]
pub(crate) fn is_absolute(path: &str) -> (r: bool)
    ensures
        r == path_is_absolute(path@),
{
    Path::new(path).is_absolute()
}

/// Trusted: `std::path::Path::join`. The result is the joined path as text,
/// named `path_join`; both inputs are valid UTF-8, so the joined path is too.
#[verifier::external_body]
pub(crate) fn join(base: &str, path: &str) -> (r: String)
    ensures
        r@ == path_join(base@, path@),
{
    Path::new(base).join(path).to_string_lossy().into_owned()
}

/// No character of `s` separates the components of a path, on whatever
/// platform.
pub open spec fn free_of_separators(s: Seq<char>) -> bool {
    forall|i: int| 0 <= i < s.len() ==> s[i] != '/' && s[i] != '\\'
}

/// Computes `free_of_separators`.
pub fn has_no_separator(s: &str) -> (r: bool)
    ensures
        r == free_of_separators(s@),
{
    let chars = chars_of(s);
    let mut i: usize = 0;
    while i < chars.len()
        invariant
            i <= chars@.len(),
            chars@ == s@,
            forall|k: int| 0 <= k < i ==> chars@[k] != '/' && chars@[k] != '\\',
        decreases chars@.len() - i,
    {
        if chars[i] == '/' || chars[i] == '\\' {
            return false;
        }
        i += 1;
    }
    true
}

/// Trusted: `std::path::Path::with_extension`. The result is the new path as
/// text, named `path_with_extension`. The standard library refuses an
/// extension that holds a path separator, so none may be handed over.
#[verifier::external_body]
pub(crate) fn with_extension(path: &str, ext: &str) -> (r: String)
    requires
        free_of_separators(ext@),
    ensures
        r@ == path_with_extension(path@, ext@),
{
    Path::new(path).with_extension(ext).to_string_lossy().into_owned()
}

/// Trusted: `std::path::Path::file_name`. The result is the final component
/// as text, named `path_file_name`.
#[verifier::external_body]
pub(crate) fn file_name(path: &str) -> (r: Option<String>)
    ensures
        opt_view(r) == path_file_name(path@),
{
    Path::new(path).file_name().map(|n| n.to_string_lossy().into_owned())
}

/// Trusted: `std::path::Path::file_stem`. The result is the stem as text,
/// named `path_file_stem`.
#[verifier::external_body]
pub(crate) fn file_stem(path: &str) -> (r: Option<String>)
    ensures
        opt_view(r) == path_file_stem(path@),
{
    Path::new(path).file_stem().map(|n| n.to_string_lossy().into_owned())
}

/// Trusted: `std::path::Path::extension`. The result is the extension as
/// text, named `path_extension`.
#[verifier::external_body]
pub(crate) fn extension(path: &str) -> (r: Option<String>)
    ensures
        opt_view(r) == path_extension(path@),
{
    Path::new(path).extension().map(|n| n.to_string_lossy().into_owned())
}

/// Trusted: the `Debug` form of `std::path::Path`. The result is the
/// quoted path, named `path_debug`.
#[verifier::external_body]
pub(crate) fn debug_text(path: &str) -> (r: String)
    ensures
        r@ == path_debug(path@),
{
    format!("{:?}", Path::new(path))
}

/// Trusted: `std::path::Path::parent`. The result is the parent as text,
/// named `path_parent`.
#[verifier::external_body]
pub(crate) fn parent(path: &str) -> (r: Option<String>)
    ensures
        opt_view(r) == path_parent(path@),
{
    Path::new(path).parent().map(|p| p.to_string_lossy().into_owned())
}

/// Trusted: `std::path::Path::strip_prefix`. The result is the rest of the
/// path as text, named `path_strip_prefix`, and absent where the path does
/// not begin with `base`.
#[verifier::external_body]
pub(crate) fn strip_prefix(path: &str, base: &str) -> (r: Option<String>)
    ensures
        opt_view(r) == path_strip_prefix(path@, base@),
{
    Path::new(path).strip_prefix(base).ok().map(|p| p.to_string_lossy().into_owned())
}

} // verus!
