//! Path arithmetic on path texts, carried out by the standard library's
//! `Path` and `PathBuf`.
//!
//! Nothing here looks at the file system. Each operation is a function of its
//! arguments alone, as the platform the library is built for reads paths, and
//! has a name under which the contracts of the library speak of its result.
//! The names have no definition: what `Path` computes is not restated here.

use vstd::prelude::*;

verus! {

/// The extension that `Path::extension` finds in `path`, without the dot.
pub uninterp spec fn path_extension(path: Seq<char>) -> Option<Seq<char>>;

/// The parent that `Path::parent` finds for `path`.
pub uninterp spec fn path_parent(path: Seq<char>) -> Option<Seq<char>>;

/// `path` after `PathBuf::set_extension` has been given `ext`.
pub uninterp spec fn path_with_extension(path: Seq<char>, ext: Seq<char>) -> Seq<char>;

/// What `Path::join` makes of `dir` and `name`.
pub uninterp spec fn path_joined(dir: Seq<char>, name: Seq<char>) -> Seq<char>;

/// The text of an optional string.
pub open spec fn text_of(s: Option<String>) -> Option<Seq<char>> {
    match s {
        Some(s) => Some(s@),
        None => None,
    }
}

/// A character that separates path components on some supported platform.
pub open spec fn is_separator(c: char) -> bool {
    c == '/' || c == '\\'
}

/// Whether `text` is free of path separators.
pub open spec fn separator_free(text: Seq<char>) -> bool {
    forall|i: int| 0 <= i < text.len() ==> !is_separator(#[trigger] text[i])
}

/// Calls `Path::extension` on `path`. The contract claims only that the
/// result is the one named [`path_extension`]; the extension of a path that
/// is valid UTF-8 is valid UTF-8 too, so turning it into a `String` loses
/// nothing.
#[verifier::external_body]
pub(crate) fn extension(path: &str) -> (ext: Option<String>)
    ensures
        text_of(ext) == path_extension(path@),
{
    std::path::Path::new(path).extension().map(|e| e.to_string_lossy().into_owned())
}

/// Calls `Path::parent` on `path`. The contract claims only that the result
/// is the one named [`path_parent`].
#[verifier::external_body]
pub(crate) fn parent(path: &str) -> (dir: Option<String>)
    ensures
        text_of(dir) == path_parent(path@),
{
    std::path::Path::new(path).parent().map(|p| p.to_string_lossy().into_owned())
}

/// Calls `PathBuf::set_extension` on a copy of `path` and returns the copy.
/// `set_extension` panics on an extension that holds a path separator, so
/// such extensions are left out. The contract claims only that the result is
/// the one named [`path_with_extension`].
#[verifier::external_body]
pub(crate) fn with_extension(path: &str, ext: &str) -> (changed: String)
    requires
        separator_free(ext@),
    ensures
        changed@ == path_with_extension(path@, ext@),
{
    let mut p = std::path::PathBuf::from(path);
    p.set_extension(ext);
    p.to_string_lossy().into_owned()
}

/// Calls `Path::join` on `dir` with `name`. The contract claims only that the
/// result is the one named [`path_joined`].
#[verifier::external_body]
pub(crate) fn join(dir: &str, name: &str) -> (joined: String)
    ensures
        joined@ == path_joined(dir@, name@),
{
    std::path::Path::new(dir).join(name).to_string_lossy().into_owned()
}

} // verus!
