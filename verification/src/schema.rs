//! Explicit structural schemas for the statement and subject variants:
//! field names, field types and a fixed discriminant tag, hand-maintained
//! per variant so that no variant can be silently excluded, and rendered
//! to JSON for tooling outside this library.

use crate::error::SubjectKind;
use vstd::prelude::*;

verus! {

/// The closed set of supported platforms. The schema exporter matches on
/// it exhaustively, so adding a platform without a schema entry fails to
/// build.
#[derive(Clone, Copy, Debug, PartialEq, Eq, Structural)]
pub enum Platform {
    Reddit,
}

/// The closed set of field names that statement and subject schemas use.
#[derive(Clone, Copy, Debug, PartialEq, Eq, Structural)]
pub enum FieldName {
    Handle,
    Subject,
    Key,
    Address,
}

/// The type a schema field carries: a plain string, or a reference to the
/// subject schema.
#[derive(Clone, Copy, Debug, PartialEq, Eq, Structural)]
pub enum FieldType {
    Str,
    SubjectRef,
}

/// One named, typed field of a schema.
#[derive(Clone, Copy, Debug, PartialEq, Eq, Structural)]
pub struct Field {
    pub name: FieldName,
    pub ty: FieldType,
}

/// The structural schema of one platform statement variant: the fixed
/// discriminant tag is "statement", and the fields stand in a fixed order.
#[derive(Clone, Debug, PartialEq, Eq)]
pub struct Schema {
    pub platform: Platform,
    pub fields: Vec<Field>,
}

/// The schema of one subject variant: its kind tag and its fields.
#[derive(Clone, Debug, PartialEq, Eq)]
pub struct VariantSchema {
    pub kind: SubjectKind,
    pub fields: Vec<Field>,
}

/// The schema of the whole subject variant set, one entry per variant.
#[derive(Clone, Debug, PartialEq, Eq)]
pub struct SubjectSchema {
    pub variants: Vec<VariantSchema>,
}

/// The fields of a platform's statement schema: every platform's statement
/// carries the handle verbatim and the subject by reference.
pub open spec fn spec_statement_fields(p: Platform) -> Seq<Field> {
    match p {
        Platform::Reddit => seq![
            Field { name: FieldName::Handle, ty: FieldType::Str },
            Field { name: FieldName::Subject, ty: FieldType::SubjectRef },
        ],
    }
}

/// The fields of one subject variant's schema.
pub open spec fn spec_subject_fields(k: SubjectKind) -> Seq<Field> {
    match k {
        SubjectKind::PublicKey => seq![Field { name: FieldName::Key, ty: FieldType::Str }],
        SubjectKind::Address => seq![Field { name: FieldName::Address, ty: FieldType::Str }],
    }
}

/// The order in which the subject schema lists the variant set.
pub open spec fn spec_subject_kinds() -> Seq<SubjectKind> {
    seq![SubjectKind::PublicKey, SubjectKind::Address]
}

/// Produces the structural schema of the given platform's statement
/// variant, without needing a live instance. The mapping is explicit and
/// exhaustive over the platform set.
pub fn statement_schema(p: Platform) -> (s: Schema)
    ensures
        s.platform == p,
        s.fields@ == spec_statement_fields(p),
{
    match p {
        Platform::Reddit => {
            let mut fields: Vec<Field> = Vec::new();
            fields.push(Field { name: FieldName::Handle, ty: FieldType::Str });
            fields.push(Field { name: FieldName::Subject, ty: FieldType::SubjectRef });
            proof {
                assert(fields@ =~= spec_statement_fields(p));
            }
            Schema { platform: p, fields }
        },
    }
}

/// Produces the schema of the subject variant set: one entry per subject
/// kind, in the fixed order of `spec_subject_kinds`.
pub fn subject_schema() -> (s: SubjectSchema)
    ensures
        s.variants@.len() == spec_subject_kinds().len(),
        forall|i: int|
            0 <= i < s.variants@.len() ==> {
                &&& (#[trigger] s.variants@[i]).kind == spec_subject_kinds()[i]
                &&& s.variants@[i].fields@ == spec_subject_fields(spec_subject_kinds()[i])
            },
{
    let mut variants: Vec<VariantSchema> = Vec::new();
    let mut pk_fields: Vec<Field> = Vec::new();
    pk_fields.push(Field { name: FieldName::Key, ty: FieldType::Str });
    proof {
        assert(pk_fields@ =~= spec_subject_fields(SubjectKind::PublicKey));
    }
    variants.push(VariantSchema { kind: SubjectKind::PublicKey, fields: pk_fields });
    let mut addr_fields: Vec<Field> = Vec::new();
    addr_fields.push(Field { name: FieldName::Address, ty: FieldType::Str });
    proof {
        assert(addr_fields@ =~= spec_subject_fields(SubjectKind::Address));
    }
    variants.push(VariantSchema { kind: SubjectKind::Address, fields: addr_fields });
    SubjectSchema { variants }
}

/// The schema `s` holds an entry for the subject kind `k`.
pub open spec fn covers_kind(s: SubjectSchema, k: SubjectKind) -> bool {
    exists|i: int| 0 <= i < s.variants@.len() && (#[trigger] s.variants@[i]).kind == k
}

/// Exhaustiveness over the subject set: the exported subject schema holds
/// an entry for every currently defined subject kind.
pub proof fn lemma_subject_schema_exhaustive(s: SubjectSchema)
    requires
        s.variants@.len() == spec_subject_kinds().len(),
        forall|i: int|
            0 <= i < s.variants@.len() ==> (#[trigger] s.variants@[i]).kind
                == spec_subject_kinds()[i],
    ensures
        forall|k: SubjectKind| #[trigger] covers_kind(s, k),
{
    assert forall|k: SubjectKind| #[trigger] covers_kind(s, k) by {
        match k {
            SubjectKind::PublicKey => {
                assert(s.variants@[0].kind == k);
            },
            SubjectKind::Address => {
                assert(s.variants@[1].kind == k);
            },
        }
    }
}

/// Exhaustiveness over the platform set: every platform's statement schema
/// lists the handle as a string and the subject by reference.
pub proof fn lemma_statement_schema_exhaustive(p: Platform)
    ensures
        (exists|i: int|
            0 <= i < spec_statement_fields(p).len() && #[trigger] spec_statement_fields(p)[i]
                == (Field { name: FieldName::Handle, ty: FieldType::Str })),
        (exists|i: int|
            0 <= i < spec_statement_fields(p).len() && #[trigger] spec_statement_fields(p)[i]
                == (Field { name: FieldName::Subject, ty: FieldType::SubjectRef })),
{
    match p {
        Platform::Reddit => {
            assert(spec_statement_fields(p)[0] == Field {
                name: FieldName::Handle,
                ty: FieldType::Str,
            });
            assert(spec_statement_fields(p)[1] == Field {
                name: FieldName::Subject,
                ty: FieldType::SubjectRef,
            });
        },
    }
}

} // verus!
