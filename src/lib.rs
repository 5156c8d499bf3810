//! Container summaries as one typed, columnar Arrow batch.
//!
//! Each container summary is mapped field by field into a fixed schema of
//! nine nullable columns; the columns are assembled into an Arrow record
//! batch that keeps the order of the summaries and holds a null cell for
//! every absent field. A small state machine says which operations a stream
//! encoder still allows, and in which order one batch is delivered.

mod batch;
mod columns;
mod encoder;
mod schema;
mod summary;

pub use batch::{batch_admits, batch_columns, batch_schema_fields, batch_schema_metadata, text_column, text_columns_fit, batch_row, int_field, summary_cells, summary_column_data, text_field};
pub use batch::{containers2batch, lemma_null_mapping, lemma_row_count, lemma_row_order};
pub use batch::{Batch, BatchError, CellData};
pub use columns::{cells_utf8_len, char_utf8_len, lemma_prefix_utf8_len, text_column_capacity, utf8_len};
pub use columns::{int_builder_values, int_column_values, text_builder_values, text_column_values};
pub use columns::{Column, ColumnData, Int64Column, Int64ColumnBuilder, TextColumn, TextColumnBuilder};
pub use encoder::{lemma_finished_is_final, lemma_one_batch_finishes, one_batch_steps, run_spec, step_spec};
pub use encoder::{EncoderError, EncoderState, EncoderStep};
pub use schema::{empty_metadata, schema_metadata, field_view, lemma_schema_stable, schema_fields, summary_columns, summary_fields, summary_schema};
pub use schema::{ColumnSpec, ColumnType};
pub use summary::{opt_text, ContainerSummary};

use vstd::prelude::*;

verus! {

/// Where the container engine listens by default.
pub const DOCKER_UNIX_PATH_DEFAULT: &'static str = "/var/run/docker.sock";

/// Seconds a connection to the container engine may take by default.
pub const DOCKER_CON_TIMEOUT_SECONDS_DEFAULT: u64 = 30;

} // verus!
