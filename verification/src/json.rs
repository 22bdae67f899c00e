//! Rendering the structural schemas to JSON text for tooling outside this
//! library, and reading such text back. The rendered form is canonical:
//! for each platform there is exactly one text, so parsing it recovers the
//! platform and its field set unambiguously.

use crate::error::SubjectKind;
use crate::schema::{
    Field, FieldName, FieldType, Platform, Schema, SubjectSchema, VariantSchema,
    spec_statement_fields, statement_schema,
};
use vstd::prelude::*;

verus! {

/// The JSON property name of a schema field.
pub open spec fn spec_field_name_text(n: FieldName) -> Seq<char> {
    match n {
        FieldName::Handle => "handle"@,
        FieldName::Subject => "subject"@,
        FieldName::Key => "key"@,
        FieldName::Address => "address"@,
    }
}

/// The JSON description of a field's type: a plain string, or a reference
/// to the subject schema.
pub open spec fn spec_field_type_json(t: FieldType) -> Seq<char> {
    match t {
        FieldType::Str => "{\"type\":\"string\"}"@,
        FieldType::SubjectRef => "{\"$ref\":\"#/definitions/subject\"}"@,
    }
}

/// The JSON property entry of one field: its quoted name and its type.
pub open spec fn spec_field_json(f: Field) -> Seq<char> {
    "\""@ + spec_field_name_text(f.name) + "\":"@ + spec_field_type_json(f.ty)
}

/// The comma-separated JSON property entries of a field list, in order.
pub open spec fn spec_fields_json(fs: Seq<Field>) -> Seq<char>
    decreases fs.len(),
{
    if fs.len() <= 0 {
        Seq::<char>::empty()
    } else if fs.len() == 1 {
        spec_field_json(fs[0])
    } else {
        spec_fields_json(fs.drop_last()) + ","@ + spec_field_json(fs.last())
    }
}

/// The full JSON document of a statement schema: the fixed discriminant
/// tag "statement", then the properties in their fixed order.
pub open spec fn spec_schema_json(fs: Seq<Field>) -> Seq<char> {
    "{\"title\":\"statement\",\"type\":\"object\",\"properties\":{"@ + spec_fields_json(fs)
        + "}}"@
}

/// The JSON tag naming one subject kind.
pub open spec fn spec_kind_text(k: SubjectKind) -> Seq<char> {
    match k {
        SubjectKind::PublicKey => "public_key"@,
        SubjectKind::Address => "address"@,
    }
}

/// The JSON document of one subject variant's schema.
pub open spec fn spec_variant_json(k: SubjectKind, fs: Seq<Field>) -> Seq<char> {
    "{\"title\":\""@ + spec_kind_text(k) + "\",\"type\":\"object\",\"properties\":{"@
        + spec_fields_json(fs) + "}}"@
}

/// The comma-separated JSON documents of a variant list, in order.
pub open spec fn spec_variants_json(vs: Seq<VariantSchema>) -> Seq<char>
    decreases vs.len(),
{
    if vs.len() <= 0 {
        Seq::<char>::empty()
    } else if vs.len() == 1 {
        spec_variant_json(vs[0].kind, vs[0].fields@)
    } else {
        spec_variants_json(vs.drop_last()) + ","@
            + spec_variant_json(vs.last().kind, vs.last().fields@)
    }
}

/// The full JSON document of the subject schema: one alternative per
/// subject variant, in order.
pub open spec fn spec_subject_schema_json(vs: Seq<VariantSchema>) -> Seq<char> {
    "{\"title\":\"subject\",\"oneOf\":["@ + spec_variants_json(vs) + "]}"@
}

/// The JSON property name of a schema field.
fn field_name_text(n: FieldName) -> (r: &'static str)
    ensures
        r@ == spec_field_name_text(n),
{
    match n {
        FieldName::Handle => "handle",
        FieldName::Subject => "subject",
        FieldName::Key => "key",
        FieldName::Address => "address",
    }
}

/// The JSON description of a field's type.
fn field_type_json(t: FieldType) -> (r: &'static str)
    ensures
        r@ == spec_field_type_json(t),
{
    match t {
        FieldType::Str => "{\"type\":\"string\"}",
        FieldType::SubjectRef => "{\"$ref\":\"#/definitions/subject\"}",
    }
}

/// The JSON tag naming one subject kind.
fn kind_text(k: SubjectKind) -> (r: &'static str)
    ensures
        r@ == spec_kind_text(k),
{
    match k {
        SubjectKind::PublicKey => "public_key",
        SubjectKind::Address => "address",
    }
}

/// Appends the comma-separated property entries of `fields` to `out`.
fn append_fields_json(out: &mut String, fields: &Vec<Field>)
    ensures
        final(out)@ == old(out)@ + spec_fields_json(fields@),
{
    let ghost fs = fields@;
    let mut i: usize = 0;
    while i < fields.len()
        invariant
            fs == fields@,
            0 <= i <= fields.len(),
            out@ == old(out)@ + spec_fields_json(fs.take(i as int)),
        decreases fields.len() - i,
    {
        if i > 0 {
            out.append(",");
        }
        let f = fields[i];
        out.append("\"");
        out.append(field_name_text(f.name));
        out.append("\":");
        out.append(field_type_json(f.ty));
        proof {
            let done = fs.take(i + 1 as int);
            assert(done.drop_last() =~= fs.take(i as int));
            assert(done.last() == fs[i as int]);
            if i == 0 {
                assert(spec_fields_json(done) == spec_field_json(fs[0]));
            }
            assert(out@ =~= old(out)@ + spec_fields_json(done));
        }
        i += 1;
    }
    proof {
        assert(fs.take(fields@.len() as int) =~= fs);
    }
}

/// Renders a statement schema to its canonical JSON document.
pub fn schema_to_json(s: &Schema) -> (r: String)
    ensures
        r@ == spec_schema_json(s.fields@),
{
    let mut out = "{\"title\":\"statement\",\"type\":\"object\",\"properties\":{".to_owned();
    append_fields_json(&mut out, &s.fields);
    out.append("}}");
    proof {
        assert(out@ =~= spec_schema_json(s.fields@));
    }
    out
}

/// Renders the subject schema to its canonical JSON document.
pub fn subject_schema_to_json(s: &SubjectSchema) -> (r: String)
    ensures
        r@ == spec_subject_schema_json(s.variants@),
{
    let ghost vs = s.variants@;
    let mut out = "{\"title\":\"subject\",\"oneOf\":[".to_owned();
    let mut i: usize = 0;
    while i < s.variants.len()
        invariant
            vs == s.variants@,
            0 <= i <= s.variants.len(),
            out@ == "{\"title\":\"subject\",\"oneOf\":["@ + spec_variants_json(vs.take(i as int)),
        decreases s.variants.len() - i,
    {
        if i > 0 {
            out.append(",");
        }
        let v = &s.variants[i];
        out.append("{\"title\":\"");
        out.append(kind_text(v.kind));
        out.append("\",\"type\":\"object\",\"properties\":{");
        append_fields_json(&mut out, &v.fields);
        out.append("}}");
        proof {
            let done = vs.take(i + 1 as int);
            assert(done.drop_last() =~= vs.take(i as int));
            assert(done.last() == vs[i as int]);
            if i == 0 {
                assert(spec_variants_json(done) == spec_variant_json(vs[0].kind, vs[0].fields@));
            }
            assert(out@ =~= "{\"title\":\"subject\",\"oneOf\":["@ + spec_variants_json(done));
        }
        i += 1;
    }
    out.append("]}");
    proof {
        assert(vs.take(s.variants@.len() as int) =~= vs);
        assert(out@ =~= spec_subject_schema_json(vs));
    }
    out
}

/// Reads a statement schema back from JSON text. Returns the schema of the
/// platform whose canonical document equals the text exactly, and nothing
/// on any other text: the rendered form is the only accepted one.
pub fn schema_from_json(text: &str) -> (r: Option<Schema>)
    ensures
        (match r {
            Some(s) => {
                &&& text@ == spec_schema_json(spec_statement_fields(s.platform))
                &&& s.fields@ == spec_statement_fields(s.platform)
            },
            None => forall|p: Platform|
                text@ != spec_schema_json(#[trigger] spec_statement_fields(p)),
        }),
{
    let reddit = statement_schema(Platform::Reddit);
    let rendered = schema_to_json(&reddit);
    let given = text.to_owned();
    if rendered == given {
        Some(reddit)
    } else {
        proof {
            assert forall|p: Platform|
                text@ != spec_schema_json(#[trigger] spec_statement_fields(p)) by {
                match p {
                    Platform::Reddit => {},
                }
            }
        }
        None
    }
}

/// Round-trip: the canonical JSON document of a platform's schema
/// determines the platform and its field set. Parsing a rendered schema
/// therefore reconstructs exactly the field set that was rendered.
pub proof fn lemma_schema_json_round_trip(p1: Platform, p2: Platform)
    requires
        spec_schema_json(spec_statement_fields(p1)) == spec_schema_json(spec_statement_fields(p2)),
    ensures
        p1 == p2,
        spec_statement_fields(p1) == spec_statement_fields(p2),
{
    match p1 {
        Platform::Reddit => {
            match p2 {
                Platform::Reddit => {},
            }
        },
    }
}

} // verus!
