//! File-system locations as the session carries them.
//!
//! A path is opaque to the proofs: the session stores it, hands it back for
//! reading and writing, and asks the standard library for its final component.
use std::path::PathBuf;
use vstd::prelude::*;

verus! {

/// `std::path::PathBuf`, carried through verified code without looking inside.
#[verifier::external_type_specification]
#[verifier::external_body]
pub struct ExPathBuf(std::path::PathBuf);

/// `PathBuf::clone`. Trusted, not proved: the copy is equal to the path it
/// was made from.
pub assume_specification[ <std::path::PathBuf as Clone>::clone ](path: &std::path::PathBuf) -> (copy:
    std::path::PathBuf)
    ensures
        copy == *path,
;

/// The final component of `path` as text: what `Path::file_name` followed by
/// `OsStr::to_str` gives. `None` where the path has no final component (it
/// is empty, a root, or ends in `..`) or where that component is not Unicode.
/// Both calls only parse the path they are given and never look at the file
/// system, so the result is a function of the path alone.
pub uninterp spec fn file_name_text(path: PathBuf) -> Option<Seq<char>>;

/// Calls `Path::file_name` on `path` and turns the component into a `String`
/// with `OsStr::to_str`. Trusted, not proved: the result is the one that
/// [`file_name_text`] names. Nothing is claimed of what the name is for a
/// given path, only that equal paths have equal names.
#[verifier::external_body]
pub(crate) fn file_name(path: &PathBuf) -> (name: Option<String>)
    ensures
        name.deep_view() == file_name_text(*path),
{
    match path.file_name() {
        Some(component) => match component.to_str() {
            Some(text) => Some(text.to_string()),
            None => None,
        },
        None => None,
    }
}

} // verus!
