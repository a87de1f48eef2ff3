//! Reading a schema text: is it a schema at all, is it of the record type, and
//! what is its canonical form.
//!
//! Parsing and canonicalisation are the work of `avro_rs`. This module decides
//! in which order they are asked for and what each answer means, and it keeps
//! `canonical_form` away from the schemas on which it would not return.

use vstd::prelude::*;

verus! {

#[verifier::external_type_specification]
#[verifier::external_body]
pub struct ExSchema(avro_rs::Schema);

#[verifier::external_type_specification]
#[verifier::external_body]
pub struct ExSchemaError(avro_rs::Error);

/// What `avro_rs::Schema::parse_str` makes of a text.
pub uninterp spec fn parsed(raw: Seq<char>) -> Result<avro_rs::Schema, avro_rs::Error>;

/// The message that an `avro_rs::Error` displays.
pub uninterp spec fn error_text(error: avro_rs::Error) -> Seq<char>;

/// Whether a schema is the `Record` variant of `avro_rs::Schema`.
pub uninterp spec fn is_record(schema: avro_rs::Schema) -> bool;

/// The size of a schema that is the `Fixed` variant of `avro_rs::Schema`.
pub uninterp spec fn fixed_size(schema: avro_rs::Schema) -> Option<u64>;

/// The schemas that stand directly inside a schema: the items of an array,
/// the values of a map, the variants of a union, the types of a record's
/// fields and the type under a decimal.
pub uninterp spec fn parts(schema: avro_rs::Schema) -> Seq<avro_rs::Schema>;

/// How deep the schemas inside a schema nest.
pub uninterp spec fn height(schema: avro_rs::Schema) -> nat;

/// What `avro_rs::Schema::canonical_form` returns.
pub uninterp spec fn canonical_form(schema: avro_rs::Schema) -> Seq<char>;

/// The largest size of a `fixed` type that `canonical_form` can write.
pub open spec fn max_fixed_size() -> int {
    0x7fff_ffff_ffff_ffff
}

/// No `fixed` type in `schema`, at any depth, is larger than
/// [`max_fixed_size`]. Every part of a schema nests less deep than the schema
/// itself; the definition says so to be well-founded.
pub open spec fn sizes_fit(schema: avro_rs::Schema) -> bool
    decreases height(schema),
{
    &&& fixed_size(schema) matches Some(size) ==> size <= max_fixed_size()
    &&& forall|i: int|
        0 <= i < parts(schema).len() && height(#[trigger] parts(schema)[i]) < height(schema)
            ==> sizes_fit(parts(schema)[i])
}

/// Calls `avro_rs::Schema::parse_str`, which parses the text as JSON and the
/// JSON as a schema. The outcome, schema or error, depends on the text alone.
#[verifier::external_body]
fn parse(raw: &str) -> (outcome: Result<avro_rs::Schema, avro_rs::Error>)
    ensures
        outcome == parsed(raw@),
{
    avro_rs::Schema::parse_str(raw)
}

/// Calls `to_string` on an `avro_rs::Error`, which renders the error's
/// `Display` text.
#[verifier::external_body]
fn describe(error: &avro_rs::Error) -> (text: String)
    ensures
        text@ == error_text(*error),
{
    error.to_string()
}

/// Tells the `Record` variant of `avro_rs::Schema` from all others.
#[verifier::external_body]
fn record_type(schema: &avro_rs::Schema) -> (yes: bool)
    ensures
        yes == is_record(*schema),
{
    match schema {
        avro_rs::Schema::Record { .. } => true,
        _ => false,
    }
}

/// Hands out the `size` field of the `Fixed` variant of `avro_rs::Schema`.
#[verifier::external_body]
fn size_of_fixed(schema: &avro_rs::Schema) -> (size: Option<u64>)
    ensures
        size == fixed_size(*schema),
{
    match schema {
        avro_rs::Schema::Fixed { size, .. } => Some(*size as u64),
        _ => None,
    }
}

/// Hands out the schemas held by the variants `Array`, `Map`, `Decimal`,
/// `Union` (through `UnionSchema::variants`) and `Record` (the `schema` of
/// each field) of `avro_rs::Schema`; the other variants hold none. Each of
/// them nests less deep than the schema that holds it.
#[verifier::external_body]
fn parts_of(schema: &avro_rs::Schema) -> (inner: Vec<&avro_rs::Schema>)
    ensures
        inner@.len() == parts(*schema).len(),
        forall|i: int| 0 <= i < inner@.len() ==> *inner@[i] == parts(*schema)[i],
        forall|i: int| 0 <= i < inner@.len() ==> height(*#[trigger] inner@[i]) < height(*schema),
{
    match schema {
        avro_rs::Schema::Array(item) | avro_rs::Schema::Map(item) => vec![&**item],
        avro_rs::Schema::Decimal { inner, .. } => vec![&**inner],
        avro_rs::Schema::Union(union) => union.variants().iter().collect(),
        avro_rs::Schema::Record { fields, .. } => fields.iter().map(|field| &field.schema).collect(),
        _ => Vec::new(),
    }
}

/// Calls `avro_rs::Schema::canonical_form`, which serialises the schema to
/// JSON and rewrites that in Parsing Canonical Form. It reads the size of
/// every `fixed` type as an `i64` and panics where one does not fit, so
/// such schemas are left out.
#[verifier::external_body]
fn canonical_form_of(schema: &avro_rs::Schema) -> (form: String)
    requires
        sizes_fit(*schema),
    ensures
        form@ == canonical_form(*schema),
{
    schema.canonical_form()
}

/// Decides [`sizes_fit`] by walking the schema.
fn check_sizes(schema: &avro_rs::Schema) -> (ok: bool)
    ensures
        ok == sizes_fit(*schema),
    decreases height(*schema),
{
    if let Some(size) = size_of_fixed(schema) {
        if size > 0x7fff_ffff_ffff_ffff {
            return false;
        }
    }
    let inner = parts_of(schema);
    let mut i: usize = 0;
    while i < inner.len()
        invariant
            i <= inner@.len(),
            inner@.len() == parts(*schema).len(),
            forall|k: int| 0 <= k < inner@.len() ==> *inner@[k] == parts(*schema)[k],
            forall|k: int| 0 <= k < inner@.len() ==> height(*#[trigger] inner@[k]) < height(*schema),
            forall|k: int| 0 <= k < i ==> sizes_fit(#[trigger] parts(*schema)[k]),
        decreases inner@.len() - i,
    {
        if !check_sizes(inner[i]) {
            return false;
        }
        i += 1;
    }
    true
}

/// What a schema text turned out to be.
#[derive(Debug)]
pub enum SchemaReading {
    /// The file could not be read; `reason` says why.
    Unreadable { reason: String },
    /// Not a schema; `message` says why.
    Invalid { message: String },
    /// A schema of another type than record.
    NotRecord,
    /// A record schema, with its canonical form.
    Record { canonical_form: String },
}

/// A [`SchemaReading`] with its texts as sequences.
pub enum SchemaReadingView {
    Unreadable { reason: Seq<char> },
    Invalid { message: Seq<char> },
    NotRecord,
    Record { canonical_form: Seq<char> },
}

impl View for SchemaReading {
    type V = SchemaReadingView;

    open spec fn view(&self) -> SchemaReadingView {
        match self {
            SchemaReading::Unreadable { reason } => SchemaReadingView::Unreadable {
                reason: reason@,
            },
            SchemaReading::Invalid { message } => SchemaReadingView::Invalid { message: message@ },
            SchemaReading::NotRecord => SchemaReadingView::NotRecord,
            SchemaReading::Record { canonical_form } => SchemaReadingView::Record {
                canonical_form: canonical_form@,
            },
        }
    }
}

/// The message for a record schema that holds a `fixed` type too large to be
/// written in canonical form.
pub open spec fn oversized_message() -> Seq<char> {
    "a fixed type is larger than its canonical form can state"@
}

/// What [`read_schema`] makes of a text: a text that does not parse is
/// invalid, with the parser's message; a schema of another type than record is
/// just that; a record has its canonical form, unless a `fixed` type inside it
/// is too large for one.
pub open spec fn reading_of(raw: Seq<char>) -> SchemaReadingView {
    match parsed(raw) {
        Err(error) => SchemaReadingView::Invalid { message: error_text(error) },
        Ok(schema) => if !is_record(schema) {
            SchemaReadingView::NotRecord
        } else if !sizes_fit(schema) {
            SchemaReadingView::Invalid { message: oversized_message() }
        } else {
            SchemaReadingView::Record { canonical_form: canonical_form(schema) }
        },
    }
}

/// Parses a schema text and, where it is a record, puts it in canonical form.
pub fn read_schema(raw: &str) -> (reading: SchemaReading)
    ensures
        reading@ == reading_of(raw@),
{
    match parse(raw) {
        Err(error) => SchemaReading::Invalid { message: describe(&error) },
        Ok(schema) => {
            if !record_type(&schema) {
                SchemaReading::NotRecord
            } else if !check_sizes(&schema) {
                SchemaReading::Invalid {
                    message: "a fixed type is larger than its canonical form can state".to_string(),
                }
            } else {
                SchemaReading::Record { canonical_form: canonical_form_of(&schema) }
            }
        },
    }
}

/// What [`examine`] makes of a file: one that could not be read is
/// unreadable, with the reason; the text of any other is read as a schema.
pub open spec fn examined(file: Result<String, String>) -> SchemaReadingView {
    match file {
        Err(reason) => SchemaReadingView::Unreadable { reason: reason@ },
        Ok(raw) => reading_of(raw@),
    }
}

/// Reads the schema in a file, given the file's text or the reason why
/// there is none.
pub fn examine(file: &Result<String, String>) -> (reading: SchemaReading)
    ensures
        reading@ == examined(*file),
{
    match file {
        Err(reason) => SchemaReading::Unreadable { reason: reason.clone() },
        Ok(raw) => read_schema(raw.as_str()),
    }
}

} // verus!
