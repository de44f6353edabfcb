//! The errors of the editing core.

use vstd::prelude::*;

verus! {

/// What an operation of the editing core can fail with.
#[derive(Clone, Copy, Debug, PartialEq, Eq, Structural)]
pub enum EditError {
    /// The operation addressed a row or a column outside the document.
    OutOfRange,
    /// The input has no meaning to the editor.
    Unsupported,
}

impl EditError {
    /// A short description of the error, for messages.
    pub fn describe(&self) -> (text: &'static str)
        ensures
            text@ == (match *self {
                EditError::OutOfRange => "position outside the document"@,
                EditError::Unsupported => "unsupported input"@,
            }),
    {
        match self {
            EditError::OutOfRange => "position outside the document",
            EditError::Unsupported => "unsupported input",
        }
    }
}

} // verus!
