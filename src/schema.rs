use std::sync::Arc;

use arrow::datatypes::{DataType, Field, Schema};

use vstd::prelude::*;

verus! {

#[verifier::external_type_specification]
#[verifier::external_body]
pub struct ExField(Field);

#[verifier::external_type_specification]
#[verifier::external_body]
pub struct ExSchema(Schema);

/// The value types a column of the summary schema can hold.
#[derive(Debug, Clone, Copy, PartialEq, Eq)]
pub enum ColumnType {
    /// UTF-8 text.
    Utf8,
    /// Signed 64-bit integers.
    Int64,
}

/// A column's name, value type and nullability, as plain values.
#[derive(Debug, Clone, PartialEq, Eq)]
pub struct ColumnSpec {
    pub name: String,
    pub column_type: ColumnType,
    pub nullable: bool,
}

impl ColumnSpec {
    pub open spec fn view(self) -> (Seq<char>, Option<ColumnType>, bool) {
        (self.name@, Some(self.column_type), self.nullable)
    }
}

/// What an Arrow field declares: its name, its type (`None` for any type
/// other than `Utf8` and `Int64`) and whether it admits nulls.
pub uninterp spec fn field_view(f: Field) -> (Seq<char>, Option<ColumnType>, bool);

/// The fields of an Arrow schema, in order, each as `field_view` gives it.
pub uninterp spec fn schema_fields(s: Schema) -> Seq<(Seq<char>, Option<ColumnType>, bool)>;

/// The key/value metadata of an Arrow schema.
pub uninterp spec fn schema_metadata(s: Schema) -> Map<Seq<char>, Seq<char>>;

/// Metadata with no entries.
pub open spec fn empty_metadata() -> Map<Seq<char>, Seq<char>> {
    Map::empty()
}

/// The fixed schema of a container summary batch.
pub open spec fn summary_fields() -> Seq<(Seq<char>, Option<ColumnType>, bool)> {
    seq![
        ("id"@, Some(ColumnType::Utf8), true),
        ("image"@, Some(ColumnType::Utf8), true),
        ("image_id"@, Some(ColumnType::Utf8), true),
        ("command"@, Some(ColumnType::Utf8), true),
        ("state"@, Some(ColumnType::Utf8), true),
        ("status"@, Some(ColumnType::Utf8), true),
        ("created"@, Some(ColumnType::Int64), true),
        ("size_rw"@, Some(ColumnType::Int64), true),
        ("size_root_fs"@, Some(ColumnType::Int64), true),
    ]
}

/// Relies on arrow's `Field::new`: the field keeps the given name, data type
/// and nullability.
#[verifier::external_body]
fn field_new(name: &str, column_type: ColumnType, nullable: bool) -> (f: Field)
    ensures
        field_view(f) == (name@, Some(column_type), nullable),
{
    let data_type = match column_type {
        ColumnType::Utf8 => DataType::Utf8,
        ColumnType::Int64 => DataType::Int64,
    };
    Field::new(name, data_type, nullable)
}

/// Relies on arrow's `Schema::new`: the schema holds the given fields in the
/// given order, and no metadata.
#[verifier::external_body]
fn schema_new(fields: Vec<Field>) -> (s: Schema)
    ensures
        schema_fields(s) == fields@.map_values(|f: Field| field_view(f)),
        schema_metadata(s) == empty_metadata(),
{
    Schema::new(fields)
}

fn column(name: &str, column_type: ColumnType) -> (c: ColumnSpec)
    ensures
        c@ == (name@, Some(column_type), true),
{
    ColumnSpec { name: name.to_string(), column_type, nullable: true }
}

/// The summary schema's columns as plain values.
pub fn summary_columns() -> (r: Vec<ColumnSpec>)
    ensures
        r@.map_values(|c: ColumnSpec| c@) == summary_fields(),
{
    let r = vec![
        column("id", ColumnType::Utf8),
        column("image", ColumnType::Utf8),
        column("image_id", ColumnType::Utf8),
        column("command", ColumnType::Utf8),
        column("state", ColumnType::Utf8),
        column("status", ColumnType::Utf8),
        column("created", ColumnType::Int64),
        column("size_rw", ColumnType::Int64),
        column("size_root_fs", ColumnType::Int64),
    ];
    assert(r@.map_values(|c: ColumnSpec| c@) =~= summary_fields());
    r
}

/// The Arrow schema of a container summary batch: nine nullable columns,
/// six of text followed by three of 64-bit integers, with no metadata.
pub fn summary_schema() -> (r: Arc<Schema>)
    ensures
        schema_fields(*r) == summary_fields(),
        schema_metadata(*r) == empty_metadata(),
{
    let columns = summary_columns();
    let mut fields: Vec<Field> = Vec::new();
    let mut i: usize = 0;
    while i < columns.len()
        invariant
            i <= columns@.len(),
            columns@.map_values(|c: ColumnSpec| c@) == summary_fields(),
            fields@.len() == i,
            forall|k: int| 0 <= k < i ==> field_view(#[trigger] fields@[k]) == columns@[k]@,
        decreases columns@.len() - i,
    {
        let c = &columns[i];
        let f = field_new(c.name.as_str(), c.column_type, c.nullable);
        fields.push(f);
        i = i + 1;
    }
    let s = schema_new(fields);
    assert(schema_fields(s) =~= summary_fields()) by {
        assert(columns@.map_values(|c: ColumnSpec| c@).len() == columns@.len());
        assert forall|k: int| 0 <= k < columns@.len() implies
            columns@.map_values(|c: ColumnSpec| c@)[k] == columns@[k]@ by {}
    }
    Arc::new(s)
}

/// Any two schemas that `summary_schema` hands out declare the same columns,
/// with the same names, order, types and nullability, and those are the nine
/// columns of the summary schema, and neither carries metadata.
pub proof fn lemma_schema_stable(a: Schema, b: Schema)
    requires
        schema_fields(a) == summary_fields(),
        schema_fields(b) == summary_fields(),
        schema_metadata(a) == empty_metadata(),
        schema_metadata(b) == empty_metadata(),
    ensures
        schema_fields(a) == schema_fields(b),
        schema_metadata(a) == schema_metadata(b),
        schema_metadata(a).dom().len() == 0,
        schema_fields(a).len() == 9,
        forall|k: int| 0 <= k < 9 ==> (#[trigger] schema_fields(a)[k]).2,
        forall|k: int| 0 <= k < 6 ==> (#[trigger] schema_fields(a)[k]).1 == Some(ColumnType::Utf8),
        forall|k: int| 6 <= k < 9 ==> (#[trigger] schema_fields(a)[k]).1 == Some(ColumnType::Int64),
{
}

} // verus!
