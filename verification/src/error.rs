//! What can go wrong around a session.
use vstd::prelude::*;

verus! {

/// The failures a session knows of. None of them is recovered from: the
/// session reports them and the program around it gives up.
#[derive(Clone, Copy, Debug, PartialEq, Eq, Structural)]
pub enum SessionError {
    /// A file could not be read or written.
    Io,
    /// A chosen path has no final component to show as a title.
    InvalidPath,
}

} // verus!
