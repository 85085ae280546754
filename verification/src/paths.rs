//! The path and text operations that the optimiser takes from `camino` and `std`.
//!
//! Each result is given by a spec function: where the documentation states it in a
//! few lines (file name, stem, extension) the spec function says so; otherwise it is
//! a name for what the outside code computes from the arguments alone.

use crate::order::PathPart;
use vstd::prelude::*;

verus! {

/// What `camino::Utf8Path::file_name` returns for `path`: the last component, where
/// it is a name (so nothing for a path that ends in a root, `.` or `..`).
pub open spec fn path_file_name(path: Seq<char>) -> Option<Seq<char>> {
    let parts = path_components(path);
    if parts.len() > 0 && parts.last().0 == 4 {
        Some(parts.last().1)
    } else {
        None
    }
}

/// The position of the last `.` in `name`, if it holds one.
pub open spec fn last_dot(name: Seq<char>) -> Option<int>
    decreases name.len(),
{
    if name.len() == 0 {
        None
    } else if name.last() == '.' {
        Some(name.len() - 1)
    } else {
        last_dot(name.drop_last())
    }
}

/// Where a file name splits into stem and extension: at its last `.`, unless the name
/// has none, that `.` is its first character, or the name is `..`.
pub open spec fn extension_dot(name: Seq<char>) -> Option<int> {
    match last_dot(name) {
        Some(i) => if i > 0 && name != ".."@ {
            Some(i)
        } else {
            None
        },
        None => None,
    }
}

/// What `camino::Utf8Path::extension` returns for `path`: what follows the dot that
/// `extension_dot` finds in its file name.
pub open spec fn path_extension(path: Seq<char>) -> Option<Seq<char>> {
    match path_file_name(path) {
        Some(name) => match extension_dot(name) {
            Some(i) => Some(name.subrange(i + 1, name.len() as int)),
            None => None,
        },
        None => None,
    }
}

/// What `camino::Utf8Path::file_stem` returns for `path`: what precedes the dot that
/// `extension_dot` finds in its file name, or the whole name where it finds none.
pub open spec fn path_file_stem(path: Seq<char>) -> Option<Seq<char>> {
    match path_file_name(path) {
        Some(name) => match extension_dot(name) {
            Some(i) => Some(name.subrange(0, i)),
            None => Some(name),
        },
        None => None,
    }
}

/// The path that `camino::Utf8Path::with_extension` builds from `path` and `ext`.
pub uninterp spec fn path_with_extension(path: Seq<char>, ext: Seq<char>) -> Seq<char>;

/// The path that `camino::Utf8PathBuf::set_file_name` leaves when applied to `path` and `name`.
pub uninterp spec fn path_with_file_name(path: Seq<char>, name: Seq<char>) -> Seq<char>;

/// What `str::to_lowercase` returns for `s`.
pub uninterp spec fn lowercased(s: Seq<char>) -> Seq<char>;

/// Whether `s` holds no path separator (`/`, nor `\`, which is one on Windows), as
/// `std` demands of a new extension.
pub open spec fn has_no_separator(s: Seq<char>) -> bool {
    forall|i: int| 0 <= i < s.len() ==> s[i] != '/' && s[i] != '\\'
}

/// Calls `camino::Utf8Path::extension`; the result is `path_extension` of the path.
#[verifier::external_body]
pub(crate) fn extension_of(path: &str) -> (r: Option<String>)
    ensures
        r matches Some(e) ==> path_extension(path@) == Some(e@),
        r is None ==> path_extension(path@) is None,
{
    camino::Utf8Path::new(path).extension().map(|e| e.to_string())
}

/// Calls `camino::Utf8Path::file_stem`; the result is `path_file_stem` of the path.
#[verifier::external_body]
pub(crate) fn file_stem_of(path: &str) -> (r: Option<String>)
    ensures
        r matches Some(e) ==> path_file_stem(path@) == Some(e@),
        r is None ==> path_file_stem(path@) is None,
{
    camino::Utf8Path::new(path).file_stem().map(|e| e.to_string())
}

/// Calls `camino::Utf8Path::file_name`; the result is `path_file_name` of the path.
#[verifier::external_body]
pub(crate) fn file_name_of(path: &str) -> (r: Option<String>)
    ensures
        r matches Some(e) ==> path_file_name(path@) == Some(e@),
        r is None ==> path_file_name(path@) is None,
{
    camino::Utf8Path::new(path).file_name().map(|e| e.to_string())
}

/// Calls `camino::Utf8Path::with_extension`; the result is `path_with_extension`.
/// `std` panics on an extension that holds a separator, so such an extension is ruled out.
#[verifier::external_body]
pub(crate) fn with_extension(path: &str, ext: &str) -> (r: String)
    requires
        has_no_separator(ext@),
    ensures
        r@ == path_with_extension(path@, ext@),
{
    camino::Utf8Path::new(path).with_extension(ext).into_string()
}

/// Calls `camino::Utf8PathBuf::set_file_name` on a copy of `path`; the result is
/// `path_with_file_name`.
#[verifier::external_body]
pub(crate) fn with_file_name(path: &str, name: &str) -> (r: String)
    ensures
        r@ == path_with_file_name(path@, name@),
{
    let mut buf = camino::Utf8PathBuf::from(path);
    buf.set_file_name(name);
    buf.into_string()
}

/// Whether every character of `s` is a lower-case ASCII letter or an ASCII digit.
pub open spec fn is_lower_ascii_word(s: Seq<char>) -> bool {
    forall|i: int| 0 <= i < s.len() ==> ('a' <= #[trigger] s[i] && s[i] <= 'z' || '0' <= s[i] && s[i] <= '9')
}

/// `s` in lower case: `s` itself where it holds only lower-case ASCII letters and
/// digits, else what `str::to_lowercase` returns for it.
pub open spec fn lower_case(s: Seq<char>) -> Seq<char> {
    if is_lower_ascii_word(s) {
        s
    } else {
        lowercased(s)
    }
}

/// Calls `str::to_lowercase`; the result is `lowercased`. The documentation defines the
/// result as the lower-case equivalent of each character, which for a character that
/// is already lower case (`a` to `z`) or has no case (a digit) is the character itself.
#[verifier::external_body]
pub(crate) fn to_lowercase(s: &str) -> (r: String)
    ensures
        r@ == lowercased(s@),
        is_lower_ascii_word(s@) ==> r@ == s@,
{
    s.to_lowercase()
}

/// The components of `path` as `camino::Utf8Path::components` yields them, each as
/// the position of its variant in `camino::Utf8Component` (prefix 0, root 1, `.` 2,
/// `..` 3, name 4) and its text (a name's text, a prefix's text, else empty).
pub uninterp spec fn path_components(path: Seq<char>) -> Seq<(u8, Seq<char>)>;

/// Calls `camino::Utf8Path::components` and lays each component out as in
/// `path_components`. (Prefixes occur on Windows only.)
#[verifier::external_body]
pub(crate) fn components_of(path: &str) -> (r: Vec<PathPart>)
    ensures
        r@.map_values(|p: PathPart| p@) == path_components(path@),
{
    camino::Utf8Path::new(path).components().map(|c| match c {
        camino::Utf8Component::Prefix(p) => PathPart { rank: 0, text: p.as_str().chars().collect() },
        camino::Utf8Component::RootDir => PathPart { rank: 1, text: Vec::new() },
        camino::Utf8Component::CurDir => PathPart { rank: 2, text: Vec::new() },
        camino::Utf8Component::ParentDir => PathPart { rank: 3, text: Vec::new() },
        camino::Utf8Component::Normal(s) => PathPart { rank: 4, text: s.chars().collect() },
    }).collect()
}

} // verus!
