//! The structured error taxonomy, and its collapse to plain text at the
//! outward-facing boundary.

use vstd::prelude::*;

verus! {

/// A persistence failure. The taxonomy is kept structured inside the
/// library; the UI layer only understands text, so the boundary collapses
/// an error to the message it carries.
#[derive(Debug, PartialEq, Eq)]
pub enum PersistError {
    /// The running executable's location could not be determined.
    Environment(String),
    /// The state file could not be written, or exists but could not be read.
    Io(String),
}

impl PersistError {
    /// The human-readable message carried by either variant.
    pub open spec fn message_view(&self) -> Seq<char> {
        match self {
            PersistError::Environment(why) => why@,
            PersistError::Io(why) => why@,
        }
    }

    /// Collapse the structured error into its message text, verbatim.
    pub fn into_message(self) -> (message: String)
        ensures
            message@ == self.message_view(),
    {
        match self {
            PersistError::Environment(why) => why,
            PersistError::Io(why) => why,
        }
    }
}

/// Collapse a structured result into the text-only form handed to the UI:
/// a success is passed through unchanged, a failure becomes its message.
pub fn to_boundary<T>(inner: Result<T, PersistError>) -> (out: Result<T, String>)
    ensures
        inner matches Ok(value) ==> out matches Ok(passed) && passed == value,
        inner matches Err(error) ==> out matches Err(message) && message@ == error.message_view(),
{
    match inner {
        Ok(value) => Ok(value),
        Err(error) => Err(error.into_message()),
    }
}

} // verus!
