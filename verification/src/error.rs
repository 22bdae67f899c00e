//! The closed error taxonomy: failures raised when a subject cannot render
//! its title or display id, and their propagation through statement
//! generation.

use vstd::prelude::*;

verus! {

/// The kind of subject a value belongs to; errors carry the kind of the
/// variant whose data could not be rendered.
#[derive(Clone, Copy, Debug, PartialEq, Eq, Structural)]
pub enum SubjectKind {
    PublicKey,
    Address,
}

/// A subject's data cannot produce a title or a display id
/// (for instance, a malformed identifier).
#[derive(Clone, Copy, Debug, PartialEq, Eq, Structural)]
pub struct SubjectError {
    pub kind: SubjectKind,
}

/// A failure met while generating a statement. It always wraps the
/// subject-level failure that caused it and is never constructed
/// independently of one.
#[derive(Clone, Copy, Debug, PartialEq, Eq, Structural)]
pub enum StatementError {
    Subject(SubjectError),
}

impl StatementError {
    /// The subject-level failure this error wraps.
    pub fn subject_error(&self) -> (e: SubjectError)
        ensures
            *self == StatementError::Subject(e),
    {
        match self {
            StatementError::Subject(e) => *e,
        }
    }
}

} // verus!
