//! Paths of the file system as the library sees them: opaque values of the
//! standard library, of which it reads the text, the last component, the
//! extension, the parent and the part below a root.

use std::path::{Path, PathBuf, StripPrefixError};
use vstd::prelude::*;

verus! {

/// `std::path::PathBuf`: a path, carried through as a value of which
/// nothing is known but whether two are equal.
#[verifier::external_type_specification]
#[verifier::external_body]
pub struct ExPathBuf(PathBuf);

/// `PathBuf::clone` gives back a path equal to the one it was called on.
pub assume_specification[ <PathBuf as Clone>::clone ](path: &PathBuf) -> (copy: PathBuf)
    ensures
        copy == *path,
;

/// `std::path::StripPrefixError`: the error of `Path::strip_prefix`,
/// carried as an opaque value.
#[verifier::external_type_specification]
#[verifier::external_body]
pub struct ExStripPrefixError(StripPrefixError);

/// The path as text, where it is valid Unicode.
pub uninterp spec fn path_text(path: PathBuf) -> Option<Seq<char>>;

/// The last component of the path as text, where there is one and it is
/// valid Unicode.
pub uninterp spec fn path_file_name(path: PathBuf) -> Option<Seq<char>>;

/// The extension of the path's last component as text, where there is one
/// and it is valid Unicode.
pub uninterp spec fn path_extension(path: PathBuf) -> Option<Seq<char>>;

/// The path without its last component as text, where it has a parent and
/// that is valid Unicode.
pub uninterp spec fn path_parent(path: PathBuf) -> Option<Seq<char>>;

/// The path relative to `base`, where `base` is a prefix of it.
pub uninterp spec fn path_under(path: PathBuf, base: PathBuf) -> Option<PathBuf>;

/// `Path::to_str` gives the path as text, or nothing if it is not valid
/// Unicode. The answer depends on the path alone and is known as
/// `path_text`.
#[verifier::external_body]
pub(crate) fn text_of(path: &PathBuf) -> (text: Option<String>)
    ensures
        text.is_some() == path_text(*path).is_some(),
        text matches Some(t) ==> Some(t@) == path_text(*path),
{
    Some(path.to_str()?.to_string())
}

/// `Path::file_name` gives the last component of the path; there is none
/// if the path ends in `..` or is a root. It is handed out as text, or not
/// at all if it is not valid Unicode. The answer depends on the path alone
/// and is known as `path_file_name`.
#[verifier::external_body]
pub(crate) fn file_name_of(path: &PathBuf) -> (name: Option<String>)
    ensures
        name.is_some() == path_file_name(*path).is_some(),
        name matches Some(n) ==> Some(n@) == path_file_name(*path),
{
    Some(path.file_name()?.to_str()?.to_string())
}

/// `Path::extension` gives the extension of the last component, if it has
/// one. It is handed out as text, or not at all if it is not valid Unicode.
/// The answer depends on the path alone and is known as `path_extension`.
#[verifier::external_body]
pub(crate) fn extension_of(path: &PathBuf) -> (extension: Option<String>)
    ensures
        extension.is_some() == path_extension(*path).is_some(),
        extension matches Some(e) ==> Some(e@) == path_extension(*path),
{
    Some(path.extension()?.to_str()?.to_string())
}

/// `Path::parent` gives the path without its last component; a root or an
/// empty path has none. It is handed out as text, or not at all if it is
/// not valid Unicode. The answer depends on the path alone and is known as
/// `path_parent`.
#[verifier::external_body]
pub(crate) fn parent_of(path: &PathBuf) -> (parent: Option<String>)
    ensures
        parent.is_some() == path_parent(*path).is_some(),
        parent matches Some(p) ==> Some(p@) == path_parent(*path),
{
    Some(path.parent()?.to_str()?.to_string())
}

/// `Path::strip_prefix` gives the path relative to `base`, or an error if
/// `base` is no prefix of it. The answer depends on the two paths alone and
/// is known as `path_under`.
#[verifier::external_body]
pub(crate) fn strip_prefix_of(path: &PathBuf, base: &PathBuf) -> (rest: Result<PathBuf, StripPrefixError>)
    ensures
        rest.is_ok() == path_under(*path, *base).is_some(),
        rest matches Ok(r) ==> Some(r) == path_under(*path, *base),
{
    path.strip_prefix(base).map(Path::to_path_buf)
}

} // verus!
