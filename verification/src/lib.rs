//! Canonical attestation statements: deterministic text binding a platform
//! handle to a verifiable subject, together with an explicit structural
//! schema for each statement variant.

pub mod error;
pub mod json;
pub mod schema;
pub mod statement;
pub mod subject;

pub use error::{StatementError, SubjectError, SubjectKind};
pub use statement::{Reddit, Statements};
pub use subject::Subjects;
