//! Platform statement variants and the statement contract: the polymorphic
//! mapping from a (subject, handle) pair to the canonical attestation text
//! that an external signer signs and a verifier re-derives byte for byte.

use crate::error::{StatementError, SubjectError};
use crate::subject::Subjects;
use vstd::prelude::*;

verus! {

/// A statement binding a Reddit handle to a subject. Constructed fresh per
/// proof request, consumed once by statement generation.
#[derive(Clone, Debug)]
pub struct Reddit {
    /// The claimed handle on the platform, taken verbatim; platform-specific
    /// syntax is the caller's concern.
    pub handle: String,
    /// The identity anchor the handle is bound to, owned by value.
    pub subject: Subjects,
}

impl Reddit {
    /// The exact attestation text for this handle and subject. The template
    /// is fixed and stable: wording, punctuation and field order are part of
    /// the public contract, and verifiers re-derive this text byte for byte.
    pub open spec fn spec_statement(self) -> Seq<char> {
        "I am attesting that this Reddit handle "@ + self.handle@ + " is linked to the "@
            + self.subject.spec_title() + " "@ + self.subject.spec_id()
    }

    /// Builds a statement from a handle and a subject, both taken verbatim.
    pub fn new(handle: String, subject: Subjects) -> (r: Reddit)
        ensures
            r.handle == handle,
            r.subject == subject,
    {
        Reddit { handle, subject }
    }

    /// Produces the canonical attestation string for this statement, or
    /// fails with the subject's own error when the subject cannot be
    /// rendered. On well-formed subjects the result matches the fixed
    /// template exactly; on malformed ones no partial text is returned and
    /// the underlying failure is propagated unmasked.
    pub fn generate_statement(&self) -> (r: Result<String, StatementError>)
        ensures
            self.subject.wf() ==> r is Ok && r->Ok_0@ == self.spec_statement(),
            !self.subject.wf() ==> r == Err::<String, StatementError>(
                StatementError::Subject(SubjectError { kind: self.subject.kind() }),
            ),
    {
        let title = match self.subject.statement_title() {
            Ok(t) => t,
            Err(e) => {
                return Err(StatementError::Subject(e));
            },
        };
        let id = match self.subject.display_id() {
            Ok(d) => d,
            Err(e) => {
                return Err(StatementError::Subject(e));
            },
        };
        let mut out = "I am attesting that this Reddit handle ".to_owned();
        out.append(self.handle.as_str());
        out.append(" is linked to the ");
        out.append(title.as_str());
        out.append(" ");
        out.append(id.as_str());
        Ok(out)
    }
}

/// The closed set of platform statement variants. Dispatch is a single
/// exhaustive match: adding a platform without extending it is a
/// build-time failure, never a silent runtime gap.
#[derive(Clone, Debug)]
pub enum Statements {
    Reddit(Reddit),
}

impl Statements {
    /// The subject this statement attests to, whichever platform it is for.
    pub open spec fn subject(self) -> Subjects {
        match self {
            Statements::Reddit(r) => r.subject,
        }
    }

    /// The exact attestation text of this statement, by platform.
    pub open spec fn spec_statement(self) -> Seq<char> {
        match self {
            Statements::Reddit(r) => r.spec_statement(),
        }
    }

    /// Produces the canonical attestation string for whichever platform
    /// variant this is, with the same success and failure behaviour as the
    /// variant's own generation.
    pub fn generate_statement(&self) -> (r: Result<String, StatementError>)
        ensures
            self.subject().wf() ==> r is Ok && r->Ok_0@ == self.spec_statement(),
            !self.subject().wf() ==> r == Err::<String, StatementError>(
                StatementError::Subject(SubjectError { kind: self.subject().kind() }),
            ),
    {
        match self {
            Statements::Reddit(r) => r.generate_statement(),
        }
    }
}

/// Determinism: two statements over logically equal inputs carry the same
/// attestation text, so repeated generation yields byte-identical strings.
pub proof fn lemma_statement_deterministic(a: Reddit, b: Reddit)
    requires
        a.handle@ == b.handle@,
        a.subject == b.subject,
    ensures
        a.spec_statement() == b.spec_statement(),
{
}

/// Determinism over the closed platform set: whichever platform two
/// logically equal statements are for, their attestation texts agree.
pub proof fn lemma_statements_deterministic(a: Statements, b: Statements)
    requires
        (match (a, b) {
            (Statements::Reddit(x), Statements::Reddit(y)) => x.handle@ == y.handle@ && x.subject
                == y.subject,
        }),
    ensures
        a.spec_statement() == b.spec_statement(),
{
}

} // verus!
