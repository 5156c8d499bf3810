use arrow::array::builder::{Int64Builder, StringBuilder};
use arrow::array::{Int64Array, StringArray};

use vstd::prelude::*;

use crate::schema::ColumnType;
use crate::summary::opt_text;

verus! {

/// Accumulates a nullable text column: Arrow's `StringBuilder`.
#[verifier::external_body]
pub struct TextColumnBuilder {
    inner: StringBuilder,
}

/// Accumulates a nullable 64-bit integer column: Arrow's `Int64Builder`.
#[verifier::external_body]
pub struct Int64ColumnBuilder {
    inner: Int64Builder,
}

/// A finished nullable text column: Arrow's `StringArray`.
#[verifier::external_body]
pub struct TextColumn(pub StringArray);

/// A finished nullable 64-bit integer column: Arrow's `Int64Array`.
#[verifier::external_body]
pub struct Int64Column(pub Int64Array);

/// The cells appended to a text builder since it was made or last finished.
pub uninterp spec fn text_builder_values(b: TextColumnBuilder) -> Seq<Option<Seq<char>>>;

/// The cells appended to an integer builder since it was made or last finished.
pub uninterp spec fn int_builder_values(b: Int64ColumnBuilder) -> Seq<Option<i64>>;

/// The cells of a text column, row by row; `None` is a null cell.
pub uninterp spec fn text_column_values(c: TextColumn) -> Seq<Option<Seq<char>>>;

/// The cells of an integer column, row by row; `None` is a null cell.
pub uninterp spec fn int_column_values(c: Int64Column) -> Seq<Option<i64>>;

/// How many bytes UTF-8 spends on `c`.
pub open spec fn char_utf8_len(c: char) -> nat {
    if (c as u32) < 0x80 {
        1
    } else if (c as u32) < 0x800 {
        2
    } else if (c as u32) < 0x10000 {
        3
    } else {
        4
    }
}

/// How many bytes the UTF-8 encoding of `s` takes.
pub open spec fn utf8_len(s: Seq<char>) -> nat
    decreases s.len(),
{
    if s.len() == 0 {
        0
    } else {
        utf8_len(s.drop_last()) + char_utf8_len(s.last())
    }
}

/// How many bytes of text a column of cells holds; a null cell holds none.
pub open spec fn cells_utf8_len(cells: Seq<Option<Seq<char>>>) -> nat
    decreases cells.len(),
{
    if cells.len() == 0 {
        0
    } else {
        cells_utf8_len(cells.drop_last()) + match cells.last() {
            Some(t) => utf8_len(t),
            None => 0,
        }
    }
}

/// The most bytes of text a column can hold: its offsets are `i32`.
pub open spec fn text_column_capacity() -> nat {
    i32::MAX as nat
}

/// A prefix of a column holds no more text than the whole.
pub proof fn lemma_prefix_utf8_len(cells: Seq<Option<Seq<char>>>, i: int)
    requires
        0 <= i <= cells.len(),
    ensures
        cells_utf8_len(cells.subrange(0, i)) <= cells_utf8_len(cells),
    decreases cells.len() - i,
{
    if i == cells.len() {
        assert(cells.subrange(0, i) =~= cells);
    } else {
        lemma_prefix_utf8_len(cells, i + 1);
        assert(cells.subrange(0, i + 1).drop_last() =~= cells.subrange(0, i));
    }
}

/// A finished column of either type.
pub enum Column {
    Text(TextColumn),
    Int64(Int64Column),
}

/// The cells of a column, as mathematical values.
pub ghost enum ColumnData {
    Text(Seq<Option<Seq<char>>>),
    Int64(Seq<Option<i64>>),
}

impl ColumnData {
    pub open spec fn len(self) -> nat {
        match self {
            ColumnData::Text(v) => v.len(),
            ColumnData::Int64(v) => v.len(),
        }
    }

    pub open spec fn column_type(self) -> ColumnType {
        match self {
            ColumnData::Text(_) => ColumnType::Utf8,
            ColumnData::Int64(_) => ColumnType::Int64,
        }
    }

    /// The cells of a text column; empty for an integer column.
    pub open spec fn text_cells(self) -> Seq<Option<Seq<char>>> {
        match self {
            ColumnData::Text(v) => v,
            ColumnData::Int64(_) => Seq::empty(),
        }
    }

    /// The cells of an integer column; empty for a text column.
    pub open spec fn int_cells(self) -> Seq<Option<i64>> {
        match self {
            ColumnData::Text(_) => Seq::empty(),
            ColumnData::Int64(v) => v,
        }
    }

    pub open spec fn has_null(self) -> bool {
        match self {
            ColumnData::Text(v) => exists|i: int| 0 <= i < v.len() && v[i] is None,
            ColumnData::Int64(v) => exists|i: int| 0 <= i < v.len() && v[i] is None,
        }
    }
}

impl Column {
    pub open spec fn view(self) -> ColumnData {
        match self {
            Column::Text(c) => ColumnData::Text(text_column_values(c)),
            Column::Int64(c) => ColumnData::Int64(int_column_values(c)),
        }
    }
}

impl TextColumnBuilder {
    /// Relies on arrow's `GenericByteBuilder::new`: a new builder holds no cells.
    #[verifier::external_body]
    pub(crate) fn new() -> (b: Self)
        ensures
            text_builder_values(b) == Seq::<Option<Seq<char>>>::empty(),
    {
        TextColumnBuilder { inner: StringBuilder::new() }
    }

    /// Relies on arrow's `GenericByteBuilder::append_option`: appends one cell,
    /// null where the value is absent. It panics once the column's text
    /// passes `i32::MAX` bytes, which `requires` rules out.
    #[verifier::external_body]
    pub(crate) fn append_option(&mut self, v: Option<String>)
        requires
            cells_utf8_len(text_builder_values(*old(self)).push(opt_text(v))) <= text_column_capacity(),
        ensures
            text_builder_values(*final(self)) == text_builder_values(*old(self)).push(opt_text(v)),
    {
        self.inner.append_option(v)
    }

    /// Relies on arrow's `GenericByteBuilder::finish`: the column holds the
    /// appended cells and the builder is left empty.
    #[verifier::external_body]
    pub(crate) fn finish(&mut self) -> (c: TextColumn)
        ensures
            text_column_values(c) == text_builder_values(*old(self)),
            text_builder_values(*final(self)) == Seq::<Option<Seq<char>>>::empty(),
    {
        TextColumn(self.inner.finish())
    }
}

impl Int64ColumnBuilder {
    /// Relies on arrow's `PrimitiveBuilder::new`: a new builder holds no cells.
    #[verifier::external_body]
    pub(crate) fn new() -> (b: Self)
        ensures
            int_builder_values(b) == Seq::<Option<i64>>::empty(),
    {
        Int64ColumnBuilder { inner: Int64Builder::new() }
    }

    /// Relies on arrow's `PrimitiveBuilder::append_option`: appends one cell,
    /// null where the value is absent.
    #[verifier::external_body]
    pub(crate) fn append_option(&mut self, v: Option<i64>)
        ensures
            int_builder_values(*final(self)) == int_builder_values(*old(self)).push(v),
    {
        self.inner.append_option(v)
    }

    /// Relies on arrow's `PrimitiveBuilder::finish`: the column holds the
    /// appended cells and the builder is left empty.
    #[verifier::external_body]
    pub(crate) fn finish(&mut self) -> (c: Int64Column)
        ensures
            int_column_values(c) == int_builder_values(*old(self)),
            int_builder_values(*final(self)) == Seq::<Option<i64>>::empty(),
    {
        Int64Column(self.inner.finish())
    }
}

} // verus!
