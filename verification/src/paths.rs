//! File-system path handling on path strings.
//!
//! Component parsing is `std::path::Path`'s own; its results are named by
//! the specification functions below. The extension of a file name is
//! computed here from the rule that `Path::extension` documents.
use std::path::Path;
use vstd::prelude::*;

use crate::text::{chars_of, string_from_chars};

verus! {

/// The final component of a path, as `Path::file_name` computes it.
pub uninterp spec fn spec_path_file_name(path: Seq<char>) -> Option<Seq<char>>;

/// Whether a path is absolute, as `Path::is_absolute` decides it.
pub uninterp spec fn spec_path_is_absolute(path: Seq<char>) -> bool;

/// The parent of a path, as `Path::parent` computes it.
pub uninterp spec fn spec_path_parent(path: Seq<char>) -> Option<Seq<char>>;

/// `base` joined with `rest`, as `Path::join` computes it.
pub uninterp spec fn spec_path_join(base: Seq<char>, rest: Seq<char>) -> Seq<char>;

/// Lower-case form of a string, as `str::to_lowercase` computes it.
pub uninterp spec fn spec_to_lowercase(s: Seq<char>) -> Seq<char>;

/// The final component of a path.
///
/// Trusted: calls `Path::file_name` and converts the component back to a
/// string (a component of a path built from a `&str` is valid UTF-8).
/// The result is named by [`spec_path_file_name`].
#[verifier::external_body]
pub(crate) fn path_file_name(path: &str) -> (r: Option<String>)
    ensures
        match r {
            Some(n) => spec_path_file_name(path@) == Some(n@),
            None => spec_path_file_name(path@) is None,
        },
{
    Path::new(path).file_name().map(|n| n.to_string_lossy().to_string())
}

/// Whether a path is absolute.
///
/// Trusted: calls `Path::is_absolute`; the result is named by
/// [`spec_path_is_absolute`].
#[verifier::external_body]
pub(crate) fn path_is_absolute(path: &str) -> (r: bool)
    ensures
        r == spec_path_is_absolute(path@),
{
    Path::new(path).is_absolute()
}

/// The parent of a path.
///
/// Trusted: calls `Path::parent` and converts the result back to a string;
/// the result is named by [`spec_path_parent`].
#[verifier::external_body]
pub(crate) fn path_parent(path: &str) -> (r: Option<String>)
    ensures
        match r {
            Some(p) => spec_path_parent(path@) == Some(p@),
            None => spec_path_parent(path@) is None,
        },
{
    Path::new(path).parent().map(|p| p.to_string_lossy().to_string())
}

/// A path joined with another.
///
/// Trusted: calls `Path::join` and `to_string_lossy`; the result is named
/// by [`spec_path_join`].
#[verifier::external_body]
pub(crate) fn path_join(base: &str, rest: &str) -> (r: String)
    ensures
        r@ == spec_path_join(base@, rest@),
{
    Path::new(base).join(rest).to_string_lossy().to_string()
}

/// Lower-case form of a string.
///
/// Trusted: calls `str::to_lowercase`; the result is named by
/// [`spec_to_lowercase`].
#[verifier::external_body]
pub(crate) fn to_lowercase(s: &str) -> (r: String)
    ensures
        r@ == spec_to_lowercase(s@),
{
    s.to_lowercase()
}

/// Position of the last `.` in `s`, if any.
pub open spec fn last_dot(s: Seq<char>) -> Option<int>
    decreases s.len(),
{
    if s.len() == 0 {
        None
    } else if s.last() == '.' {
        Some(s.len() - 1)
    } else {
        last_dot(s.drop_last())
    }
}

/// The extension of a file name, by the rule `Path::extension` documents:
/// none for `..`, none without an embedded `.`, none when the only `.` is
/// the leading one, otherwise the part after the final `.`.
pub open spec fn extension_of(name: Seq<char>) -> Option<Seq<char>> {
    if name == seq!['.', '.'] {
        None
    } else {
        match last_dot(name) {
            None => None,
            Some(d) => if d == 0 {
                None
            } else {
                Some(name.subrange(d + 1, name.len() as int))
            },
        }
    }
}

/// The extension of a path's file name.
pub open spec fn path_extension_spec(path: Seq<char>) -> Option<Seq<char>> {
    match spec_path_file_name(path) {
        None => None,
        Some(n) => extension_of(n),
    }
}

/// Computes the extension of a file name.
pub fn file_name_extension(name: &str) -> (r: Option<String>)
    ensures
        match r {
            Some(e) => extension_of(name@) == Some(e@),
            None => extension_of(name@) is None,
        },
{
    let v = chars_of(name);
    if v.len() == 2 && v[0] == '.' && v[1] == '.' {
        assert(v@ =~= seq!['.', '.']);
        return None;
    }
    assert(v@ != seq!['.', '.']) by {
        if v@ == seq!['.', '.'] {
            assert(v@.len() == 2 && v@[0] == '.' && v@[1] == '.');
        }
    }
    let mut j: usize = v.len();
    assert(v@.take(v@.len() as int) =~= v@);
    while j > 0 && v[j - 1] != '.'
        invariant
            j <= v@.len(),
            last_dot(v@) == last_dot(v@.take(j as int)),
        decreases j,
    {
        assert(v@.take(j as int).drop_last() =~= v@.take(j - 1));
        j = j - 1;
    }
    if j == 0 {
        assert(v@.take(0) =~= Seq::<char>::empty());
        return None;
    }
    assert(v@.take(j as int).last() == '.');
    if j == 1 {
        return None;
    }
    let mut ext: Vec<char> = Vec::new();
    let mut k: usize = j;
    while k < v.len()
        invariant
            j <= k <= v@.len(),
            ext@ == v@.subrange(j as int, k as int),
        decreases v@.len() - k,
    {
        ext.push(v[k]);
        k = k + 1;
        assert(ext@ =~= v@.subrange(j as int, k as int));
    }
    Some(string_from_chars(ext.as_slice()))
}

/// The extension of a path's file name (`Path::extension`).
pub fn path_extension(path: &str) -> (r: Option<String>)
    ensures
        match r {
            Some(e) => path_extension_spec(path@) == Some(e@),
            None => path_extension_spec(path@) is None,
        },
{
    match path_file_name(path) {
        None => None,
        Some(n) => file_name_extension(n.as_str()),
    }
}

} // verus!
