use std::io::Cursor;
use std::io::Write;
use std::sync::Arc;

use arrow::array::{Array, Int64Array, StringArray};
use arrow::datatypes::{DataType, Field, Schema};
use arrow::ipc::reader::StreamReader;
use arrow::ipc::writer::StreamWriter;
use arrow::record_batch::RecordBatch;

use docker_arrow::{containers2batch, summary_columns, summary_schema};
use docker_arrow::{Batch, BatchError, ColumnType, ContainerSummary};
use docker_arrow::{DOCKER_CON_TIMEOUT_SECONDS_DEFAULT, DOCKER_UNIX_PATH_DEFAULT};

const NAMES: [&str; 9] = [
    "id", "image", "image_id", "command", "state", "status", "created", "size_rw", "size_root_fs",
];

fn full(id: &str, created: i64) -> ContainerSummary {
    ContainerSummary {
        id: Some(id.to_string()),
        image: Some(format!("{id}-image")),
        image_id: Some(format!("sha256:{id}")),
        command: Some("sh -c true".to_string()),
        state: Some("running".to_string()),
        status: Some("Up 2 minutes".to_string()),
        created: Some(created),
        size_rw: Some(created + 1),
        size_root_fs: Some(created + 2),
    }
}

fn build(containers: Vec<ContainerSummary>) -> RecordBatch {
    containers2batch(containers, summary_schema()).unwrap().0
}

fn encode_and_decode(b: &RecordBatch, sch: &Schema) -> Vec<RecordBatch> {
    let mut sink: Vec<u8> = Vec::new();
    {
        let mut w = StreamWriter::try_new_buffered(&mut sink, sch).unwrap();
        w.write(b).unwrap();
        w.flush().unwrap();
        w.finish().unwrap();
    }
    sink.flush().unwrap();
    let reader = StreamReader::try_new(Cursor::new(sink), None).unwrap();
    reader.map(|r| r.unwrap()).collect()
}

fn text_col(b: &RecordBatch, k: usize) -> &StringArray {
    b.column(k).as_any().downcast_ref::<StringArray>().unwrap()
}

fn int_col(b: &RecordBatch, k: usize) -> &Int64Array {
    b.column(k).as_any().downcast_ref::<Int64Array>().unwrap()
}

fn check_schema(s: &Schema) {
    assert_eq!(s.fields().len(), 9);
    for (k, f) in s.fields().iter().enumerate() {
        assert_eq!(f.name(), NAMES[k]);
        assert!(f.is_nullable());
        let expected = if k < 6 { DataType::Utf8 } else { DataType::Int64 };
        assert_eq!(f.data_type(), &expected);
    }
}

#[test]
fn schema_has_nine_nullable_columns_in_order() {
    check_schema(&summary_schema());
}

#[test]
fn schema_is_stable_across_calls() {
    let a = summary_schema();
    let b = summary_schema();
    assert_eq!(a, b);
    check_schema(&a);
}

#[test]
fn summary_columns_match_schema() {
    let cols = summary_columns();
    assert_eq!(cols.len(), 9);
    for (k, c) in cols.iter().enumerate() {
        assert_eq!(c.name, NAMES[k]);
        assert!(c.nullable);
        let expected = if k < 6 { ColumnType::Utf8 } else { ColumnType::Int64 };
        assert_eq!(c.column_type, expected);
    }
}

#[test]
fn empty_list_gives_nine_empty_columns() {
    let b = build(vec![]);
    assert_eq!(b.num_columns(), 9);
    assert_eq!(b.num_rows(), 0);
    for k in 0..9 {
        assert_eq!(b.column(k).len(), 0);
    }
}

#[test]
fn empty_list_round_trips_through_stream() {
    let sch = summary_schema();
    let b = build(vec![]);
    let decoded = encode_and_decode(&b, &sch);
    assert_eq!(decoded.len(), 1);
    assert_eq!(decoded[0].num_columns(), 9);
    assert_eq!(decoded[0].num_rows(), 0);
    check_schema(&decoded[0].schema());
}

#[test]
fn one_summary_with_id_and_image() {
    let c = ContainerSummary {
        id: Some("c1".to_string()),
        image: Some("alpine".to_string()),
        ..Default::default()
    };
    let sch = summary_schema();
    let b = build(vec![c]);
    let decoded = encode_and_decode(&b, &sch);
    assert_eq!(decoded.len(), 1);
    let d = &decoded[0];
    assert_eq!(d.num_rows(), 1);
    assert_eq!(text_col(d, 0).value(0), "c1");
    assert_eq!(text_col(d, 1).value(0), "alpine");
    for k in 2..6 {
        assert!(text_col(d, k).is_null(0));
    }
    for k in 6..9 {
        assert!(int_col(d, k).is_null(0));
    }
}

#[test]
fn middle_summary_all_absent_gives_null_row() {
    let sch = summary_schema();
    let b = build(vec![full("a", 100), ContainerSummary::default(), full("c", 300)]);
    let decoded = encode_and_decode(&b, &sch);
    let d = &decoded[0];
    assert_eq!(d.num_rows(), 3);
    assert_eq!(text_col(d, 0).value(0), "a");
    assert_eq!(text_col(d, 1).value(0), "a-image");
    assert_eq!(text_col(d, 2).value(0), "sha256:a");
    assert_eq!(text_col(d, 3).value(0), "sh -c true");
    assert_eq!(text_col(d, 4).value(0), "running");
    assert_eq!(text_col(d, 5).value(0), "Up 2 minutes");
    assert_eq!(int_col(d, 6).value(0), 100);
    assert_eq!(int_col(d, 7).value(0), 101);
    assert_eq!(int_col(d, 8).value(0), 102);
    for k in 0..6 {
        assert!(text_col(d, k).is_null(1));
    }
    for k in 6..9 {
        assert!(int_col(d, k).is_null(1));
    }
    assert_eq!(text_col(d, 0).value(2), "c");
    assert_eq!(int_col(d, 6).value(2), 300);
    assert_eq!(int_col(d, 8).value(2), 302);
}

#[test]
fn row_count_matches_input_length() {
    let input: Vec<ContainerSummary> = (0..17).map(|i| full(&format!("x{i}"), i)).collect();
    let b = build(input);
    assert_eq!(b.num_rows(), 17);
    for k in 0..9 {
        assert_eq!(b.column(k).len(), 17);
    }
}

#[test]
fn rows_keep_input_order_in_every_column() {
    let input: Vec<ContainerSummary> = (0..5).map(|i| full(&format!("r{i}"), 10 * i)).collect();
    let b = build(input);
    for i in 0..5 {
        assert_eq!(text_col(&b, 0).value(i), format!("r{i}"));
        assert_eq!(text_col(&b, 1).value(i), format!("r{i}-image"));
        assert_eq!(text_col(&b, 2).value(i), format!("sha256:r{i}"));
        assert_eq!(int_col(&b, 6).value(i), 10 * i as i64);
        assert_eq!(int_col(&b, 7).value(i), 10 * i as i64 + 1);
        assert_eq!(int_col(&b, 8).value(i), 10 * i as i64 + 2);
    }
}

#[test]
fn absent_fields_are_null_not_defaults() {
    let c = ContainerSummary {
        id: Some(String::new()),
        created: Some(0),
        ..Default::default()
    };
    let b = build(vec![c]);
    assert!(!text_col(&b, 0).is_null(0));
    assert_eq!(text_col(&b, 0).value(0), "");
    assert!(!int_col(&b, 6).is_null(0));
    assert_eq!(int_col(&b, 6).value(0), 0);
    assert!(text_col(&b, 1).is_null(0));
    assert!(int_col(&b, 7).is_null(0));
    assert_eq!(text_col(&b, 1).null_count(), 1);
}

#[test]
fn extreme_integers_are_kept() {
    let c = ContainerSummary {
        created: Some(i64::MIN),
        size_rw: Some(i64::MAX),
        size_root_fs: Some(-1),
        ..Default::default()
    };
    let b = build(vec![c]);
    assert_eq!(int_col(&b, 6).value(0), i64::MIN);
    assert_eq!(int_col(&b, 7).value(0), i64::MAX);
    assert_eq!(int_col(&b, 8).value(0), -1);
}

#[test]
fn round_trip_keeps_every_cell() {
    let sch = summary_schema();
    let b = build(vec![
        full("one", 1),
        ContainerSummary { state: Some("exited".to_string()), size_rw: Some(7), ..Default::default() },
        full("three", 3),
    ]);
    let decoded = encode_and_decode(&b, &sch);
    assert_eq!(decoded.len(), 1);
    assert_eq!(decoded[0], b);
}

#[test]
fn schema_with_too_few_fields_is_a_mismatch() {
    let sch = Arc::new(Schema::new(vec![Field::new("id", DataType::Utf8, true)]));
    let r = containers2batch(vec![full("a", 1)], sch);
    assert!(matches!(r, Err(BatchError::SchemaMismatch(_))));
}

#[test]
fn non_nullable_field_with_absent_value_is_a_mismatch() {
    let fields: Vec<Field> = NAMES
        .iter()
        .enumerate()
        .map(|(k, n)| {
            let t = if k < 6 { DataType::Utf8 } else { DataType::Int64 };
            Field::new(*n, t, k != 0)
        })
        .collect();
    let sch = Arc::new(Schema::new(fields));
    let r = containers2batch(vec![ContainerSummary::default()], sch.clone());
    assert!(matches!(r, Err(BatchError::SchemaMismatch(_))));
    let ok: Result<Batch, BatchError> = containers2batch(vec![full("a", 1)], sch);
    assert!(ok.is_ok());
}

#[test]
fn wrong_column_type_is_a_mismatch() {
    let fields: Vec<Field> = NAMES.iter().map(|n| Field::new(*n, DataType::Utf8, true)).collect();
    let r = containers2batch(vec![], Arc::new(Schema::new(fields)));
    assert!(matches!(r, Err(BatchError::SchemaMismatch(_))));
}

#[test]
fn defaults_are_the_engine_socket_and_thirty_seconds() {
    assert_eq!(DOCKER_UNIX_PATH_DEFAULT, "/var/run/docker.sock");
    assert_eq!(DOCKER_CON_TIMEOUT_SECONDS_DEFAULT, 30);
}

#[test]
fn schema_has_no_metadata() {
    assert!(summary_schema().metadata().is_empty());
}

#[test]
fn batch_carries_the_given_schema() {
    let sch = summary_schema();
    let b = containers2batch(vec![full("a", 1)], sch.clone()).unwrap().0;
    assert!(Arc::ptr_eq(&b.schema(), &sch));
    assert!(b.schema().metadata().is_empty());
}
