use stage_shuffle::schema::{DataType, Field};
use stage_shuffle::stats::PartitionStats;
use stage_shuffle::writer::{
    collect_stream, write_stream_to_disk, BatchEvent, BatchMeta, ShuffleWriter, WriteError,
};

fn test_schema() -> Vec<Field> {
    vec![
        Field { name: "id".to_string(), data_type: DataType::UInt64, nullable: false },
        Field { name: "name".to_string(), data_type: DataType::Utf8, nullable: true },
    ]
}

fn batch(rows: u64, bytes: u64, nulls: u64) -> BatchMeta {
    BatchMeta { schema: test_schema(), num_rows: rows, num_bytes: bytes, null_count: nulls }
}

#[test]
fn write_known_counts() {
    let events = vec![
        BatchEvent::Batch(batch(3, 64, 1)),
        BatchEvent::Batch(batch(5, 128, 0)),
        BatchEvent::Batch(batch(0, 8, 0)),
        BatchEvent::Batch(batch(7, 256, 2)),
    ];
    let r = write_stream_to_disk(test_schema(), &events);
    assert_eq!(
        r,
        Ok(PartitionStats { num_rows: 15, num_batches: 4, num_bytes: 456, null_count: 3 })
    );
}

#[test]
fn write_empty_stream() {
    let r = write_stream_to_disk(test_schema(), &vec![]);
    assert_eq!(
        r,
        Ok(PartitionStats { num_rows: 0, num_batches: 0, num_bytes: 0, null_count: 0 })
    );
}

#[test]
fn write_aborts_on_read_error() {
    let events = vec![
        BatchEvent::Batch(batch(3, 64, 1)),
        BatchEvent::ReadError,
        BatchEvent::Batch(batch(5, 128, 0)),
    ];
    assert_eq!(write_stream_to_disk(test_schema(), &events), Err(WriteError::BatchRead));
}

#[test]
fn write_aborts_on_schema_mismatch() {
    let other_schema = vec![
        Field { name: "id".to_string(), data_type: DataType::Int64, nullable: false },
        Field { name: "name".to_string(), data_type: DataType::Utf8, nullable: true },
    ];
    let events = vec![
        BatchEvent::Batch(batch(3, 64, 1)),
        BatchEvent::Batch(BatchMeta {
            schema: other_schema,
            num_rows: 5,
            num_bytes: 128,
            null_count: 0,
        }),
    ];
    assert_eq!(write_stream_to_disk(test_schema(), &events), Err(WriteError::SchemaMismatch));
}

#[test]
fn writer_rejects_mismatch_and_keeps_stats() {
    let mut w = ShuffleWriter::new(test_schema());
    assert_eq!(w.append_batch(&batch(3, 64, 1)), Ok(()));
    let mismatched = BatchMeta {
        schema: vec![Field { name: "id".to_string(), data_type: DataType::UInt64, nullable: true }],
        num_rows: 9,
        num_bytes: 9,
        null_count: 9,
    };
    assert_eq!(w.append_batch(&mismatched), Err(WriteError::SchemaMismatch));
    let stats = w.finish();
    assert_eq!(
        stats,
        PartitionStats { num_rows: 3, num_batches: 1, num_bytes: 64, null_count: 1 }
    );
}

#[test]
fn collect_preserves_order() {
    let items: Vec<Result<u64, WriteError>> = vec![Ok(10), Ok(20), Ok(30)];
    assert_eq!(collect_stream(items), Ok(vec![10, 20, 30]));
}

#[test]
fn collect_empty() {
    let items: Vec<Result<u64, WriteError>> = vec![];
    assert_eq!(collect_stream(items), Ok(vec![]));
}

#[test]
fn collect_aborts_on_first_error() {
    let items: Vec<Result<u64, &str>> = vec![Ok(10), Err("boom"), Ok(30), Err("later")];
    assert_eq!(collect_stream(items), Err("boom"));
}
