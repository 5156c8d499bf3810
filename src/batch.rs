use std::sync::Arc;

use arrow::array::ArrayRef;
use arrow::datatypes::Schema;
use arrow::error::ArrowError;
use arrow::record_batch::RecordBatch;

use vstd::prelude::*;

use crate::columns::{Column, ColumnData, Int64ColumnBuilder, TextColumnBuilder};
use crate::columns::{cells_utf8_len, int_builder_values, lemma_prefix_utf8_len, text_builder_values, text_column_capacity};
use crate::schema::{schema_fields, schema_metadata, summary_fields, ColumnType};
use crate::summary::{clone_text, opt_text, ContainerSummary};

verus! {

/// A record batch: Arrow's `RecordBatch`, a table held column by column.
#[verifier::external_body]
pub struct Batch(pub RecordBatch);

#[verifier::external_type_specification]
#[verifier::external_body]
pub struct ExArrowError(ArrowError);

/// The columns of a record batch, in schema order.
pub uninterp spec fn batch_columns(b: Batch) -> Seq<ColumnData>;

/// The fields of the schema a record batch carries, each as `field_view` gives it.
pub uninterp spec fn batch_schema_fields(b: Batch) -> Seq<(Seq<char>, Option<ColumnType>, bool)>;

/// The metadata of the schema a record batch carries.
pub uninterp spec fn batch_schema_metadata(b: Batch) -> Map<Seq<char>, Seq<char>>;

/// Whether Arrow accepts `columns` as a record batch of a schema with
/// `fields`: one column per field, at least one column, all of one length,
/// each of its field's type, and nulls only where the field admits them.
pub open spec fn batch_admits(
    fields: Seq<(Seq<char>, Option<ColumnType>, bool)>,
    columns: Seq<ColumnData>,
) -> bool {
    &&& fields.len() == columns.len()
    &&& columns.len() > 0
    &&& forall|k: int| 0 <= k < columns.len() ==> (#[trigger] columns[k]).len() == columns[0].len()
    &&& forall|k: int| 0 <= k < columns.len() ==> (#[trigger] fields[k]).1 == Some(columns[k].column_type())
    &&& forall|k: int| 0 <= k < columns.len() ==> (#[trigger] fields[k]).2 || !columns[k].has_null()
}

/// Relies on arrow's `RecordBatch::try_new`: it accepts the columns exactly
/// when `batch_admits` holds (it checks the column count, that there is a
/// column to take the row count from, nulls against nullability, the lengths
/// and the types), and the batch then holds the given columns and shares the
/// given schema.
#[verifier::external_body]
fn record_batch_new(schema: Arc<Schema>, columns: Vec<Column>) -> (r: Result<Batch, ArrowError>)
    ensures
        r is Ok <==> batch_admits(schema_fields(*schema), columns@.map_values(|c: Column| c@)),
        r matches Ok(b) ==> batch_columns(b) == columns@.map_values(|c: Column| c@),
        r matches Ok(b) ==> batch_schema_fields(b) == schema_fields(*schema),
        r matches Ok(b) ==> batch_schema_metadata(b) == schema_metadata(*schema),
{
    let arrays: Vec<ArrayRef> = columns.into_iter().map(|c| match c {
        Column::Text(t) => Arc::new(t.0) as ArrayRef,
        Column::Int64(n) => Arc::new(n.0) as ArrayRef,
    }).collect();
    RecordBatch::try_new(schema, arrays).map(Batch)
}

/// Why a batch could not be built.
#[derive(Debug)]
pub enum BatchError {
    /// Arrow refused the columns for the given schema.
    SchemaMismatch(ArrowError),
}

/// The text held by the text field at position `k` of the summary schema.
pub open spec fn text_field(c: ContainerSummary, k: int) -> Option<Seq<char>> {
    opt_text(
        if k == 0 {
            c.id
        } else if k == 1 {
            c.image
        } else if k == 2 {
            c.image_id
        } else if k == 3 {
            c.command
        } else if k == 4 {
            c.state
        } else {
            c.status
        },
    )
}

/// The integer held by the integer field at position `k` of the summary schema.
pub open spec fn int_field(c: ContainerSummary, k: int) -> Option<i64> {
    if k == 6 {
        c.created
    } else if k == 7 {
        c.size_rw
    } else {
        c.size_root_fs
    }
}

/// The cells of text field `k` over a list of summaries, in list order.
pub open spec fn text_column(s: Seq<ContainerSummary>, k: int) -> Seq<Option<Seq<char>>> {
    s.map_values(|c: ContainerSummary| text_field(c, k))
}

/// Whether every text column of a list of summaries fits in an Arrow text
/// column, whose offsets are `i32`.
pub open spec fn text_columns_fit(s: Seq<ContainerSummary>) -> bool {
    forall|k: int| 0 <= k < 6 ==> cells_utf8_len(#[trigger] text_column(s, k)) <= text_column_capacity()
}

/// The nine columns that a list of summaries maps to: column `k` holds
/// field `k` of every summary, in list order, `None` where it is absent.
pub open spec fn summary_column_data(s: Seq<ContainerSummary>) -> Seq<ColumnData> {
    Seq::new(9, |k: int|
        if k < 6 {
            ColumnData::Text(text_column(s, k))
        } else {
            ColumnData::Int64(s.map_values(|c: ContainerSummary| int_field(c, k)))
        }
    )
}

/// One cell of a batch.
pub ghost enum CellData {
    Text(Option<Seq<char>>),
    Int64(Option<i64>),
}

/// Row `i` of a batch's columns, one cell per column.
pub open spec fn batch_row(columns: Seq<ColumnData>, i: int) -> Seq<CellData> {
    columns.map_values(|d: ColumnData| match d {
        ColumnData::Text(v) => CellData::Text(v[i]),
        ColumnData::Int64(v) => CellData::Int64(v[i]),
    })
}

/// The nine cells that one summary maps to, in schema order.
pub open spec fn summary_cells(c: ContainerSummary) -> Seq<CellData> {
    seq![
        CellData::Text(opt_text(c.id)),
        CellData::Text(opt_text(c.image)),
        CellData::Text(opt_text(c.image_id)),
        CellData::Text(opt_text(c.command)),
        CellData::Text(opt_text(c.state)),
        CellData::Text(opt_text(c.status)),
        CellData::Int64(c.created),
        CellData::Int64(c.size_rw),
        CellData::Int64(c.size_root_fs),
    ]
}

/// Converts container summaries into one record batch of `schema`, one row
/// per summary in list order, each absent field a null cell.
///
/// Arrow decides whether the columns fit the schema; they always fit the
/// summary schema. Each text column holds at most `i32::MAX` bytes, the
/// most that Arrow's text columns can address.
pub fn containers2batch(containers: Vec<ContainerSummary>, schema: Arc<Schema>) -> (r: Result<Batch, BatchError>)
    requires
        text_columns_fit(containers@),
    ensures
        r is Ok <==> batch_admits(schema_fields(*schema), summary_column_data(containers@)),
        schema_fields(*schema) == summary_fields() ==> r is Ok,
        r matches Ok(b) ==> batch_columns(b) == summary_column_data(containers@),
        r matches Ok(b) ==> batch_schema_fields(b) == schema_fields(*schema),
        r matches Ok(b) ==> batch_schema_metadata(b) == schema_metadata(*schema),
        r matches Err(e) ==> e is SchemaMismatch,
{
    let mut id_builder = TextColumnBuilder::new();
    let mut image_builder = TextColumnBuilder::new();
    let mut image_id_builder = TextColumnBuilder::new();
    let mut command_builder = TextColumnBuilder::new();
    let mut state_builder = TextColumnBuilder::new();
    let mut status_builder = TextColumnBuilder::new();
    let mut created_builder = Int64ColumnBuilder::new();
    let mut size_rw_builder = Int64ColumnBuilder::new();
    let mut size_root_fs_builder = Int64ColumnBuilder::new();

    let n = containers.len();
    let mut i: usize = 0;
    while i < n
        invariant
            n == containers@.len(),
            i <= n,
            text_columns_fit(containers@),
            text_builder_values(id_builder).len() == i,
            text_builder_values(image_builder).len() == i,
            text_builder_values(image_id_builder).len() == i,
            text_builder_values(command_builder).len() == i,
            text_builder_values(state_builder).len() == i,
            text_builder_values(status_builder).len() == i,
            int_builder_values(created_builder).len() == i,
            int_builder_values(size_rw_builder).len() == i,
            int_builder_values(size_root_fs_builder).len() == i,
            forall|j: int| 0 <= j < i ==> {
                let c = #[trigger] containers@[j];
                &&& text_builder_values(id_builder)[j] == text_field(c, 0)
                &&& text_builder_values(image_builder)[j] == text_field(c, 1)
                &&& text_builder_values(image_id_builder)[j] == text_field(c, 2)
                &&& text_builder_values(command_builder)[j] == text_field(c, 3)
                &&& text_builder_values(state_builder)[j] == text_field(c, 4)
                &&& text_builder_values(status_builder)[j] == text_field(c, 5)
                &&& int_builder_values(created_builder)[j] == int_field(c, 6)
                &&& int_builder_values(size_rw_builder)[j] == int_field(c, 7)
                &&& int_builder_values(size_root_fs_builder)[j] == int_field(c, 8)
            },
        decreases n - i,
    {
        let c = &containers[i];
        proof {
            let s = containers@;
            let j = i as int;
            lemma_append_fits(s, 0, j, text_builder_values(id_builder));
            lemma_append_fits(s, 1, j, text_builder_values(image_builder));
            lemma_append_fits(s, 2, j, text_builder_values(image_id_builder));
            lemma_append_fits(s, 3, j, text_builder_values(command_builder));
            lemma_append_fits(s, 4, j, text_builder_values(state_builder));
            lemma_append_fits(s, 5, j, text_builder_values(status_builder));
        }
        id_builder.append_option(clone_text(&c.id));
        image_builder.append_option(clone_text(&c.image));
        image_id_builder.append_option(clone_text(&c.image_id));
        command_builder.append_option(clone_text(&c.command));
        state_builder.append_option(clone_text(&c.state));
        status_builder.append_option(clone_text(&c.status));
        created_builder.append_option(c.created);
        size_rw_builder.append_option(c.size_rw);
        size_root_fs_builder.append_option(c.size_root_fs);
        i = i + 1;
    }

    let columns: Vec<Column> = vec![
        Column::Text(id_builder.finish()),
        Column::Text(image_builder.finish()),
        Column::Text(image_id_builder.finish()),
        Column::Text(command_builder.finish()),
        Column::Text(state_builder.finish()),
        Column::Text(status_builder.finish()),
        Column::Int64(created_builder.finish()),
        Column::Int64(size_rw_builder.finish()),
        Column::Int64(size_root_fs_builder.finish()),
    ];
    proof {
        let expected = summary_column_data(containers@);
        let got = columns@.map_values(|c: Column| c@);
        assert forall|k: int| 0 <= k < 9 implies #[trigger] got[k] == expected[k] by {
            if k < 6 {
                assert(got[k].text_cells() =~= text_column(containers@, k));
            } else {
                assert(got[k].int_cells() =~= containers@.map_values(|c: ContainerSummary| int_field(c, k)));
            }
        }
        assert(got =~= expected);
        lemma_summary_batch_admitted(containers@);
    }
    match record_batch_new(schema, columns) {
        Ok(b) => Ok(b),
        Err(e) => Err(BatchError::SchemaMismatch(e)),
    }
}

/// Appending the next summary's text field `k` to the cells built so far
/// stays within a text column's capacity.
proof fn lemma_append_fits(s: Seq<ContainerSummary>, k: int, i: int, built: Seq<Option<Seq<char>>>)
    requires
        0 <= k < 6,
        0 <= i < s.len(),
        text_columns_fit(s),
        built.len() == i,
        forall|j: int| 0 <= j < i ==> #[trigger] built[j] == text_field(s[j], k),
    ensures
        cells_utf8_len(built.push(text_field(s[i], k))) <= text_column_capacity(),
{
    let col = text_column(s, k);
    assert(built.push(text_field(s[i], k)) =~= col.subrange(0, i + 1));
    lemma_prefix_utf8_len(col, i + 1);
}

proof fn lemma_summary_batch_admitted(s: Seq<ContainerSummary>)
    ensures
        batch_admits(summary_fields(), summary_column_data(s)),
{
    let d = summary_column_data(s);
    assert forall|k: int| 0 <= k < d.len() implies (#[trigger] d[k]).len() == d[0].len() by {}
}

/// For any list of summaries, each of the nine columns has one row per summary.
pub proof fn lemma_row_count(s: Seq<ContainerSummary>)
    ensures
        summary_column_data(s).len() == 9,
        forall|k: int| 0 <= k < 9 ==> (#[trigger] summary_column_data(s)[k]).len() == s.len(),
{
}

/// Every present field reaches its cell unchanged, and every absent field
/// becomes a null cell, never a default value.
pub proof fn lemma_null_mapping(s: Seq<ContainerSummary>, i: int)
    requires
        0 <= i < s.len(),
    ensures
        summary_column_data(s)[0].text_cells()[i] == opt_text(s[i].id),
        summary_column_data(s)[1].text_cells()[i] == opt_text(s[i].image),
        summary_column_data(s)[2].text_cells()[i] == opt_text(s[i].image_id),
        summary_column_data(s)[3].text_cells()[i] == opt_text(s[i].command),
        summary_column_data(s)[4].text_cells()[i] == opt_text(s[i].state),
        summary_column_data(s)[5].text_cells()[i] == opt_text(s[i].status),
        summary_column_data(s)[6].int_cells()[i] == s[i].created,
        summary_column_data(s)[7].int_cells()[i] == s[i].size_rw,
        summary_column_data(s)[8].int_cells()[i] == s[i].size_root_fs,
        forall|k: int| 0 <= k < 6 ==> ((#[trigger] summary_column_data(s)[k]).text_cells()[i] is None
            <==> text_field(s[i], k) is None),
        forall|k: int| 6 <= k < 9 ==> ((#[trigger] summary_column_data(s)[k]).int_cells()[i] is None
            <==> int_field(s[i], k) is None),
{
}

/// Row `i` of every column comes from summary `i`: the columns are never
/// reordered one against another.
pub proof fn lemma_row_order(s: Seq<ContainerSummary>, i: int)
    requires
        0 <= i < s.len(),
    ensures
        batch_row(summary_column_data(s), i) == summary_cells(s[i]),
{
    assert(batch_row(summary_column_data(s), i) =~= summary_cells(s[i]));
}

} // verus!
