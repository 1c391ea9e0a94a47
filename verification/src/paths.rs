//! Filesystem paths: the calls into `std::path` that the library's rules rest on.
//!
//! A path is opaque here. What std makes of one is a function of the path (and of the platform's
//! path syntax, which a path value belongs to), so each result has a name.

use std::path::Path;
use std::path::PathBuf;
use vstd::prelude::*;

verus! {

#[verifier::external_type_specification]
#[verifier::external_body]
pub struct ExPathBuf(std::path::PathBuf);

#[verifier::external_type_specification]
#[verifier::external_body]
pub struct ExPath(std::path::Path);

/// The borrowed path that `owned` holds.
pub uninterp spec fn path_of(owned: PathBuf) -> &'static Path;

/// The text that a path is shown as.
pub uninterp spec fn path_text(path: &Path) -> Seq<char>;

/// The path's text with what is not Unicode replaced.
pub uninterp spec fn lossy_text(path: &Path) -> Seq<char>;

/// The path that `text` spells.
pub uninterp spec fn path_from(text: Seq<char>) -> PathBuf;

/// The path without its last component, if it has one.
pub uninterp spec fn parent_of(path: &Path) -> Option<PathBuf>;

/// The text of the path's last component, if that is a name.
pub uninterp spec fn file_name_of(path: &Path) -> Option<Seq<char>>;

/// `tail` taken from `base`.
pub uninterp spec fn joined(base: &Path, tail: &Path) -> PathBuf;

/// Whether two paths have the same components.
pub uninterp spec fn same_components(a: &Path, b: &Path) -> bool;

/// Whether the components of `path` begin with those of `base`.
pub uninterp spec fn begins_with(path: &Path, base: &Path) -> bool;

/// What is left of `path` behind `base`, if `path` lies there.
pub uninterp spec fn relative_path(path: &Path, base: &Path) -> Option<PathBuf>;

/// Whether the path holds nothing at all.
pub uninterp spec fn empty_path(path: &Path) -> bool;

/// Whether the path starts from some other folder.
pub uninterp spec fn is_relative_path(path: &Path) -> bool;

/// A path that its own text spells again: true of every path that is Unicode.
pub open spec fn spelled(path: PathBuf) -> bool {
    path_from(path_text(path_of(path))) == path
}

/// `std::path::PathBuf::clone`: the clone is the same path.
pub assume_specification[ <PathBuf as Clone>::clone ](path: &PathBuf) -> (r: PathBuf)
    ensures
        r == *path,
;

/// `std::path::PathBuf::as_path`: the path that the buffer holds.
#[verifier::external_body]
pub(crate) fn as_path(owned: &PathBuf) -> (r: &Path)
    ensures
        r == path_of(*owned),
{
    owned.as_path()
}

/// `std::path::Path::display`: the text that the path is shown as.
#[verifier::external_body]
pub(crate) fn show(path: &Path) -> (r: String)
    ensures
        r@ == path_text(path),
{
    path.display().to_string()
}

/// `std::path::Path::to_string_lossy`: the text of the path, replacing what is not Unicode.
#[verifier::external_body]
pub(crate) fn show_lossy(path: &Path) -> (r: String)
    ensures
        r@ == lossy_text(path),
{
    path.to_string_lossy().into_owned()
}

/// `std::path::PathBuf::from`: the path that `text` spells. What was made from a text is spelled
/// by it: it is shown as that text, with and without replacing.
#[verifier::external_body]
pub(crate) fn path_from_text(text: &str) -> (r: PathBuf)
    ensures
        r == path_from(text@),
        path_text(path_of(r)) == text@,
        lossy_text(path_of(r)) == text@,
{
    PathBuf::from(text)
}

/// `std::path::Path::parent`: the path without its last component.
#[verifier::external_body]
pub(crate) fn parent(path: &Path) -> (r: Option<PathBuf>)
    ensures
        r == parent_of(path),
{
    path.parent().map(Path::to_path_buf)
}

/// `std::path::Path::file_name`: the last component as text, replacing what is not Unicode.
#[verifier::external_body]
pub(crate) fn file_name(path: &Path) -> (r: Option<String>)
    ensures
        match r {
            Some(name) => file_name_of(path) == Some(name@),
            None => file_name_of(path) is None,
        },
{
    path.file_name().map(|name| name.to_string_lossy().into_owned())
}

/// `std::path::Path::join`: `tail` taken from `base`.
#[verifier::external_body]
pub(crate) fn join(base: &Path, tail: &Path) -> (r: PathBuf)
    ensures
        r == joined(base, tail),
{
    base.join(tail)
}

/// `==` of two `std::path::Path`: they have the same components, as a path has with itself.
#[verifier::external_body]
pub(crate) fn same_path(a: &Path, b: &Path) -> (r: bool)
    ensures
        r == same_components(a, b),
        a == b ==> r,
{
    a == b
}

/// `std::path::Path::starts_with`: the components of `path` begin with those of `base`.
#[verifier::external_body]
pub(crate) fn starts_with(path: &Path, base: &Path) -> (r: bool)
    ensures
        r == begins_with(path, base),
{
    path.starts_with(base)
}

/// `std::path::Path::strip_prefix`: what is left of `path` behind `base`.
#[verifier::external_body]
pub(crate) fn strip_prefix(path: &Path, base: &Path) -> (r: Option<PathBuf>)
    ensures
        r == relative_path(path, base),
{
    path.strip_prefix(base).ok().map(Path::to_path_buf)
}

/// Whether the path is the empty text: `std::path::Path::as_os_str` holds nothing.
#[verifier::external_body]
pub(crate) fn is_empty_path(path: &Path) -> (r: bool)
    ensures
        r == empty_path(path),
{
    path.as_os_str().is_empty()
}

/// `std::path::Path::is_relative`: the path starts from some other folder.
#[verifier::external_body]
pub(crate) fn is_relative(path: &Path) -> (r: bool)
    ensures
        r == is_relative_path(path),
{
    path.is_relative()
}

/// `std::path::MAIN_SEPARATOR`: a backslash on Windows, a slash elsewhere. Which of the two is
/// the machine's affair, so nothing is said of it.
#[verifier::external_body]
pub(crate) fn main_separator() -> (r: char) {
    std::path::MAIN_SEPARATOR
}

/// Whether the platform separates the components of a path by backslashes.
pub(crate) fn on_windows() -> (r: bool) {
    is_windows_separator(main_separator())
}

/// Whether `separator` is the one that separates the components of a path on Windows.
pub fn is_windows_separator(separator: char) -> (r: bool)
    ensures
        r == (separator == '\\'),
{
    separator == '\\'
}

} // verus!
