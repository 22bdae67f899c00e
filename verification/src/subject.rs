//! The closed set of identity anchors a statement can attest to, with the
//! two accessor operations every variant supports: a prose title for its
//! category and a display form of its identifier.

use crate::error::{SubjectError, SubjectKind};
use vstd::prelude::*;

verus! {

/// A verifiable identity anchor. Each variant wraps the minimal data that
/// identifies one kind of anchor; values are immutable and caller-owned.
#[derive(Clone, Debug)]
pub enum Subjects {
    /// A public key, carried as its canonical textual rendering.
    PublicKey { key: String },
    /// A chain address, carried as lowercase hexadecimal digits.
    Address { address: String },
}

/// A lowercase hexadecimal digit: `0` to `9` or `a` to `f`.
pub open spec fn is_hex_digit(c: char) -> bool {
    (48 <= c as u32 && c as u32 <= 57) || (97 <= c as u32 && c as u32 <= 102)
}

/// Every character of `s` is a lowercase hexadecimal digit.
pub open spec fn all_hex_digits(s: Seq<char>) -> bool {
    forall|i: int| 0 <= i < s.len() ==> is_hex_digit(#[trigger] s[i])
}

impl Subjects {
    /// The kind tag of this variant, as carried by errors.
    pub open spec fn kind(self) -> SubjectKind {
        match self {
            Subjects::PublicKey { .. } => SubjectKind::PublicKey,
            Subjects::Address { .. } => SubjectKind::Address,
        }
    }

    /// The raw identifier text this variant carries.
    pub open spec fn spec_id(self) -> Seq<char> {
        match self {
            Subjects::PublicKey { key } => key@,
            Subjects::Address { address } => address@,
        }
    }

    /// Well-formedness of the variant's data: the identifier is non-empty,
    /// and an address consists of hexadecimal digits only. Rendering a
    /// display id succeeds exactly on well-formed data.
    pub open spec fn wf(self) -> bool {
        match self {
            Subjects::PublicKey { key } => key@.len() > 0,
            Subjects::Address { address } => address@.len() > 0 && all_hex_digits(address@),
        }
    }

    /// The fixed prose phrase naming this variant's category.
    pub open spec fn spec_title(self) -> Seq<char> {
        match self {
            Subjects::PublicKey { .. } => "the public key"@,
            Subjects::Address { .. } => "the address"@,
        }
    }

    /// Returns the fixed, variant-specific phrase naming the subject's
    /// category in prose. Total: the phrase depends on the variant alone,
    /// never on its data.
    pub fn statement_title(&self) -> (r: Result<String, SubjectError>)
        ensures
            r is Ok,
            r->Ok_0@ == self.spec_title(),
    {
        match self {
            Subjects::PublicKey { .. } => Ok("the public key".to_owned()),
            Subjects::Address { .. } => Ok("the address".to_owned()),
        }
    }

    /// Returns the canonical textual rendering of the subject's identifier,
    /// or the error naming this variant's kind exactly when the data is
    /// malformed. No silent fallback: either the full identifier or a
    /// typed failure.
    pub fn display_id(&self) -> (r: Result<String, SubjectError>)
        ensures
            self.wf() ==> r is Ok && r->Ok_0@ == self.spec_id(),
            !self.wf() ==> r == Err::<String, SubjectError>(SubjectError { kind: self.kind() }),
    {
        match self {
            Subjects::PublicKey { key } => {
                if key.as_str().is_empty() {
                    Err(SubjectError { kind: SubjectKind::PublicKey })
                } else {
                    Ok(key.clone())
                }
            },
            Subjects::Address { address } => {
                if !address.as_str().is_empty() && check_hex(address.as_str()) {
                    Ok(address.clone())
                } else {
                    Err(SubjectError { kind: SubjectKind::Address })
                }
            },
        }
    }
}

/// Every subject variant names its category with a non-empty phrase, and
/// a well-formed subject has a non-empty display form of its identifier:
/// there is no silent fallback to empty text.
pub proof fn lemma_subject_renders_nonempty(s: Subjects)
    ensures
        s.spec_title().len() > 0,
        s.wf() ==> s.spec_id().len() > 0,
{
    reveal_strlit("the public key");
    reveal_strlit("the address");
}

/// Decides whether every character of `s` is a lowercase hexadecimal digit.
fn check_hex(s: &str) -> (b: bool)
    ensures
        b == all_hex_digits(s@),
{
    let n = s.unicode_len();
    let mut i: usize = 0;
    while i < n
        invariant
            n == s@.len(),
            0 <= i <= n,
            forall|j: int| 0 <= j < i ==> is_hex_digit(#[trigger] s@[j]),
        decreases n - i,
    {
        let c = s.get_char(i);
        let u = c as u32;
        if !((48 <= u && u <= 57) || (97 <= u && u <= 102)) {
            return false;
        }
        i += 1;
    }
    true
}

} // verus!
