use stage_shuffle::schema::DataType;
use stage_shuffle::stats::{ColumnData, DecodeError, PartitionStats, StructColumn, StructRecord};

fn sample_stats() -> PartitionStats {
    PartitionStats { num_rows: 15, num_batches: 4, num_bytes: 1024, null_count: 3 }
}

fn u64_col(name: &str, vals: Vec<u64>) -> StructColumn {
    StructColumn { name: name.to_string(), data: ColumnData::UInt64(vals) }
}

#[test]
fn stats_round_trip() {
    let stats = sample_stats();
    let rec = stats.to_arrow_arrayref();
    let back = PartitionStats::from_arrow_struct_array(&rec);
    assert_eq!(back, Ok(stats));
}

#[test]
fn stats_round_trip_extremes() {
    let stats = PartitionStats {
        num_rows: u64::MAX,
        num_batches: 0,
        num_bytes: 1,
        null_count: u64::MAX - 1,
    };
    let rec = stats.to_arrow_arrayref();
    assert_eq!(PartitionStats::from_arrow_struct_array(&rec), Ok(stats));
}

#[test]
fn decode_missing_null_count_rejected() {
    let rec = StructRecord {
        columns: vec![
            u64_col("num_rows", vec![15]),
            u64_col("num_batches", vec![4]),
            u64_col("num_bytes", vec![1024]),
        ],
    };
    assert_eq!(
        PartitionStats::from_arrow_struct_array(&rec),
        Err(DecodeError::SchemaMismatch)
    );
}

#[test]
fn decode_signed_num_rows_rejected() {
    let rec = StructRecord {
        columns: vec![
            StructColumn { name: "num_rows".to_string(), data: ColumnData::Int64(vec![15]) },
            u64_col("num_batches", vec![4]),
            u64_col("num_bytes", vec![1024]),
            u64_col("null_count", vec![3]),
        ],
    };
    assert_eq!(
        PartitionStats::from_arrow_struct_array(&rec),
        Err(DecodeError::SchemaMismatch)
    );
}

#[test]
fn decode_two_rows_rejected() {
    let rec = StructRecord {
        columns: vec![
            u64_col("num_rows", vec![15, 16]),
            u64_col("num_batches", vec![4]),
            u64_col("num_bytes", vec![1024]),
            u64_col("null_count", vec![3]),
        ],
    };
    assert_eq!(
        PartitionStats::from_arrow_struct_array(&rec),
        Err(DecodeError::SchemaMismatch)
    );
}

#[test]
fn decode_zero_rows_rejected() {
    let rec = StructRecord {
        columns: vec![
            u64_col("num_rows", vec![]),
            u64_col("num_batches", vec![4]),
            u64_col("num_bytes", vec![1024]),
            u64_col("null_count", vec![3]),
        ],
    };
    assert_eq!(
        PartitionStats::from_arrow_struct_array(&rec),
        Err(DecodeError::SchemaMismatch)
    );
}

#[test]
fn decode_tolerates_order_and_extras() {
    let rec = StructRecord {
        columns: vec![
            u64_col("null_count", vec![3]),
            u64_col("extra", vec![99]),
            u64_col("num_bytes", vec![1024]),
            u64_col("num_batches", vec![4]),
            u64_col("num_rows", vec![15]),
        ],
    };
    assert_eq!(PartitionStats::from_arrow_struct_array(&rec), Ok(sample_stats()));
}

#[test]
fn default_stats_are_zero() {
    let z = PartitionStats::default();
    assert_eq!(z, PartitionStats { num_rows: 0, num_batches: 0, num_bytes: 0, null_count: 0 });
}

#[test]
fn accumulate_and_finalize() {
    let mut s = PartitionStats::default();
    s.accumulate(3, 100, 1);
    s.accumulate(5, 200, 0);
    let snap = s.finalize();
    assert_eq!(
        snap,
        PartitionStats { num_rows: 8, num_batches: 2, num_bytes: 300, null_count: 1 }
    );
    assert_eq!(s.finalize(), snap);
}

#[test]
fn struct_repr_names_and_types() {
    let repr = sample_stats().arrow_struct_repr();
    assert_eq!(repr.name, "partition_stats");
    assert!(!repr.nullable);
    let names: Vec<&str> = repr.fields.iter().map(|f| f.name.as_str()).collect();
    assert_eq!(names, vec!["num_rows", "num_batches", "num_bytes", "null_count"]);
    for f in &repr.fields {
        assert_eq!(f.data_type, DataType::UInt64);
        assert!(!f.nullable);
    }
}

#[test]
fn encoding_layout_is_fixed() {
    let rec = sample_stats().to_arrow_arrayref();
    assert_eq!(rec.columns.len(), 4);
    assert_eq!(rec.columns[0], u64_col("num_rows", vec![15]));
    assert_eq!(rec.columns[1], u64_col("num_batches", vec![4]));
    assert_eq!(rec.columns[2], u64_col("num_bytes", vec![1024]));
    assert_eq!(rec.columns[3], u64_col("null_count", vec![3]));
}
