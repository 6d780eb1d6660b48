//! Statistics describing one materialized output partition, together with a
//! lossless conversion to and from a single-row columnar struct record.

use vstd::prelude::*;

use crate::schema::{DataType, Field, StructField};

verus! {

/// Summary of one executed partition: row count, batch count, total byte
/// footprint and total null count. All counts accumulate monotonically while
/// the partition is written and are immutable once the writer finalizes.
#[derive(Debug, Copy, Clone, PartialEq, Eq, Structural)]
pub struct PartitionStats {
    pub num_rows: u64,
    pub num_batches: u64,
    pub num_bytes: u64,
    pub null_count: u64,
}

/// The values of one column of a struct record, one entry per logical row.
#[derive(Debug, Clone, PartialEq)]
pub enum ColumnData {
    Boolean(Vec<bool>),
    Int32(Vec<i32>),
    Int64(Vec<i64>),
    UInt32(Vec<u32>),
    UInt64(Vec<u64>),
    Utf8(Vec<String>),
}

/// One named column of a struct record.
#[derive(Debug, Clone, PartialEq)]
pub struct StructColumn {
    pub name: String,
    pub data: ColumnData,
}

/// A columnar struct record: named columns side by side.
#[derive(Debug, Clone, PartialEq)]
pub struct StructRecord {
    pub columns: Vec<StructColumn>,
}

/// Why a statistics record failed to decode.
#[derive(Debug, Clone, Copy, PartialEq, Eq, Structural)]
pub enum DecodeError {
    /// A required field is missing, has the wrong type, or does not hold
    /// exactly one row.
    SchemaMismatch,
}

/// The first column of `cols` named `name`, if any.
pub open spec fn spec_column_lookup(cols: Seq<StructColumn>, name: Seq<char>) -> Option<
    ColumnData,
>
    decreases cols.len(),
{
    if cols.len() == 0 {
        None
    } else if cols[0].name@ == name {
        Some(cols[0].data)
    } else {
        spec_column_lookup(cols.drop_first(), name)
    }
}

/// The value of a column that is an unsigned 64-bit column with exactly one
/// row; `None` for a missing column, a differently typed one, or one with a
/// row count other than one.
pub open spec fn u64_single(c: Option<ColumnData>) -> Option<u64> {
    match c {
        Some(ColumnData::UInt64(v)) => if v@.len() == 1 {
            Some(v@[0])
        } else {
            None
        },
        _ => None,
    }
}

/// What decoding a statistics record yields: the four named unsigned 64-bit
/// single-row fields read back, or `SchemaMismatch` if any of them is
/// missing, wrongly typed, or not exactly one row.
pub open spec fn spec_decode(r: StructRecord) -> Result<PartitionStats, DecodeError> {
    let num_rows = u64_single(spec_column_lookup(r.columns@, "num_rows"@));
    let num_batches = u64_single(spec_column_lookup(r.columns@, "num_batches"@));
    let num_bytes = u64_single(spec_column_lookup(r.columns@, "num_bytes"@));
    let null_count = u64_single(spec_column_lookup(r.columns@, "null_count"@));
    if num_rows is Some && num_batches is Some && num_bytes is Some && null_count is Some {
        Ok(
            PartitionStats {
                num_rows: num_rows->Some_0,
                num_batches: num_batches->Some_0,
                num_bytes: num_bytes->Some_0,
                null_count: null_count->Some_0,
            },
        )
    } else {
        Err(DecodeError::SchemaMismatch)
    }
}

/// `c` is a non-nullable unsigned 64-bit column named `name` holding exactly
/// the single value `val`.
pub open spec fn col_is_u64_single(c: StructColumn, name: Seq<char>, val: u64) -> bool {
    &&& c.name@ == name
    &&& c.data matches ColumnData::UInt64(v) && v@ == seq![val]
}

/// `r` is the single-row struct record encoding of `s`: exactly the four
/// fields `num_rows`, `num_batches`, `num_bytes`, `null_count`, in that
/// order, each unsigned 64-bit with one row.
pub open spec fn is_stats_encoding(r: StructRecord, s: PartitionStats) -> bool {
    &&& r.columns@.len() == 4
    &&& col_is_u64_single(r.columns@[0], "num_rows"@, s.num_rows)
    &&& col_is_u64_single(r.columns@[1], "num_batches"@, s.num_batches)
    &&& col_is_u64_single(r.columns@[2], "num_bytes"@, s.num_bytes)
    &&& col_is_u64_single(r.columns@[3], "null_count"@, s.null_count)
}

/// `fs` is the field list of the statistics record schema: the four named
/// non-nullable unsigned 64-bit fields, in order.
pub open spec fn stats_fields_are(fs: Seq<Field>) -> bool {
    &&& fs.len() == 4
    &&& fs[0].name@ == "num_rows"@ && fs[0].data_type == DataType::UInt64 && !fs[0].nullable
    &&& fs[1].name@ == "num_batches"@ && fs[1].data_type == DataType::UInt64 && !fs[1].nullable
    &&& fs[2].name@ == "num_bytes"@ && fs[2].data_type == DataType::UInt64 && !fs[2].nullable
    &&& fs[3].name@ == "null_count"@ && fs[3].data_type == DataType::UInt64 && !fs[3].nullable
}

impl Default for PartitionStats {
    fn default() -> (r: Self)
        ensures
            r == (PartitionStats { num_rows: 0, num_batches: 0, num_bytes: 0, null_count: 0 }),
    {
        PartitionStats { num_rows: 0, num_batches: 0, num_bytes: 0, null_count: 0 }
    }
}

impl PartitionStats {
    /// Adds one batch's row, byte and null counts to the running totals.
    pub fn accumulate(&mut self, rows: u64, bytes: u64, nulls: u64)
        requires
            old(self).num_rows + rows <= u64::MAX,
            old(self).num_batches + 1 <= u64::MAX,
            old(self).num_bytes + bytes <= u64::MAX,
            old(self).null_count + nulls <= u64::MAX,
        ensures
            *final(self) == (PartitionStats {
                num_rows: (old(self).num_rows + rows) as u64,
                num_batches: (old(self).num_batches + 1) as u64,
                num_bytes: (old(self).num_bytes + bytes) as u64,
                null_count: (old(self).null_count + nulls) as u64,
            }),
    {
        self.num_rows = self.num_rows + rows;
        self.num_batches = self.num_batches + 1;
        self.num_bytes = self.num_bytes + bytes;
        self.null_count = self.null_count + nulls;
    }

    /// Idempotent snapshot of the accumulated totals.
    pub fn finalize(&self) -> (r: PartitionStats)
        ensures
            r == *self,
    {
        *self
    }

    /// The schema of the statistics record: four non-nullable unsigned
    /// 64-bit fields.
    pub fn arrow_struct_fields(&self) -> (r: Vec<Field>)
        ensures
            stats_fields_are(r@),
    {
        let mut fs: Vec<Field> = Vec::new();
        fs.push(Field { name: "num_rows".to_owned(), data_type: DataType::UInt64, nullable: false });
        fs.push(
            Field { name: "num_batches".to_owned(), data_type: DataType::UInt64, nullable: false },
        );
        fs.push(
            Field { name: "num_bytes".to_owned(), data_type: DataType::UInt64, nullable: false },
        );
        fs.push(
            Field { name: "null_count".to_owned(), data_type: DataType::UInt64, nullable: false },
        );
        fs
    }

    /// The statistics record described as a single non-nullable struct field
    /// named `partition_stats`, suitable for embedding in stage metadata.
    pub fn arrow_struct_repr(&self) -> (r: StructField)
        ensures
            r.name@ == "partition_stats"@,
            !r.nullable,
            stats_fields_are(r.fields@),
    {
        StructField {
            name: "partition_stats".to_owned(),
            fields: self.arrow_struct_fields(),
            nullable: false,
        }
    }

    /// Encodes the statistics as a single-row columnar struct record.
    pub fn to_arrow_arrayref(&self) -> (r: StructRecord)
        ensures
            is_stats_encoding(r, *self),
    {
        let mut cols: Vec<StructColumn> = Vec::new();
        let mut rows_v: Vec<u64> = Vec::new();
        rows_v.push(self.num_rows);
        proof {
            assert(rows_v@ =~= seq![self.num_rows]);
        }
        cols.push(StructColumn { name: "num_rows".to_owned(), data: ColumnData::UInt64(rows_v) });
        let mut batches_v: Vec<u64> = Vec::new();
        batches_v.push(self.num_batches);
        proof {
            assert(batches_v@ =~= seq![self.num_batches]);
        }
        cols.push(
            StructColumn { name: "num_batches".to_owned(), data: ColumnData::UInt64(batches_v) },
        );
        let mut bytes_v: Vec<u64> = Vec::new();
        bytes_v.push(self.num_bytes);
        proof {
            assert(bytes_v@ =~= seq![self.num_bytes]);
        }
        cols.push(StructColumn { name: "num_bytes".to_owned(), data: ColumnData::UInt64(bytes_v) });
        let mut nulls_v: Vec<u64> = Vec::new();
        nulls_v.push(self.null_count);
        proof {
            assert(nulls_v@ =~= seq![self.null_count]);
        }
        cols.push(
            StructColumn { name: "null_count".to_owned(), data: ColumnData::UInt64(nulls_v) },
        );
        StructRecord { columns: cols }
    }

    /// Decodes a struct record back into statistics. Succeeds exactly when
    /// each of the four named fields is present as an unsigned 64-bit column
    /// with exactly one row; otherwise reports a schema mismatch and never
    /// substitutes default values.
    pub fn from_arrow_struct_array(rec: &StructRecord) -> (r: Result<
        PartitionStats,
        DecodeError,
    >)
        ensures
            r == spec_decode(*rec),
    {
        let rows_name = "num_rows".to_owned();
        let num_rows = read_u64_single(rec, &rows_name);
        let batches_name = "num_batches".to_owned();
        let num_batches = read_u64_single(rec, &batches_name);
        let bytes_name = "num_bytes".to_owned();
        let num_bytes = read_u64_single(rec, &bytes_name);
        let nulls_name = "null_count".to_owned();
        let null_count = read_u64_single(rec, &nulls_name);
        match (num_rows, num_batches, num_bytes, null_count) {
            (Some(r), Some(b), Some(y), Some(n)) => Ok(
                PartitionStats { num_rows: r, num_batches: b, num_bytes: y, null_count: n },
            ),
            _ => Err(DecodeError::SchemaMismatch),
        }
    }
}

/// Finds the first column of `rec` named `name`.
fn column_by_name<'a>(rec: &'a StructRecord, name: &String) -> (r: Option<&'a ColumnData>)
    ensures
        match r {
            Some(c) => spec_column_lookup(rec.columns@, name@) == Some(*c),
            None => spec_column_lookup(rec.columns@, name@) is None,
        },
{
    proof {
        assert(rec.columns@.skip(0) =~= rec.columns@);
    }
    let mut i: usize = 0;
    while i < rec.columns.len()
        invariant
            i <= rec.columns@.len(),
            spec_column_lookup(rec.columns@, name@) == spec_column_lookup(
                rec.columns@.skip(i as int),
                name@,
            ),
        decreases rec.columns@.len() - i,
    {
        proof {
            assert(rec.columns@.skip(i as int)[0] == rec.columns@[i as int]);
        }
        if rec.columns[i].name == *name {
            return Some(&rec.columns[i].data);
        }
        proof {
            assert(rec.columns@.skip(i as int).drop_first() =~= rec.columns@.skip(i as int + 1));
        }
        i = i + 1;
    }
    None
}

/// Reads the named field as an unsigned 64-bit single-row column.
fn read_u64_single(rec: &StructRecord, name: &String) -> (r: Option<u64>)
    ensures
        r == u64_single(spec_column_lookup(rec.columns@, name@)),
{
    match column_by_name(rec, name) {
        Some(ColumnData::UInt64(v)) => if v.len() == 1 {
            Some(v[0])
        } else {
            None
        },
        _ => None,
    }
}

/// Round trip: decoding the record that encodes any statistics value yields
/// exactly that value back.
pub proof fn lemma_stats_round_trip(r: StructRecord, s: PartitionStats)
    requires
        is_stats_encoding(r, s),
    ensures
        spec_decode(r) == Ok::<PartitionStats, DecodeError>(s),
{
    reveal_strlit("num_rows");
    reveal_strlit("num_batches");
    reveal_strlit("num_bytes");
    reveal_strlit("null_count");
    let cols = r.columns@;
    let c1 = cols.drop_first();
    let c2 = c1.drop_first();
    let c3 = c2.drop_first();
    assert(c1[0] == cols[1] && c1[1] == cols[2] && c1[2] == cols[3] && c1.len() == 3);
    assert(c2[0] == cols[2] && c2[1] == cols[3] && c2.len() == 2);
    assert(c3[0] == cols[3] && c3.len() == 1);
    assert(spec_column_lookup(cols, "num_rows"@) == Some(cols[0].data));
    assert("num_rows"@.len() == 8 && "num_batches"@.len() == 11 && "num_bytes"@.len() == 9
        && "null_count"@.len() == 10);
    assert(cols[0].name@ != "num_batches"@ && cols[0].name@ != "num_bytes"@ && cols[0].name@
        != "null_count"@);
    assert(cols[1].name@ != "num_bytes"@ && cols[1].name@ != "null_count"@);
    assert(cols[2].name@ != "null_count"@);
    assert(spec_column_lookup(cols, "num_batches"@) == spec_column_lookup(c1, "num_batches"@));
    assert(spec_column_lookup(c1, "num_batches"@) == Some(cols[1].data));
    assert(spec_column_lookup(cols, "num_bytes"@) == spec_column_lookup(c1, "num_bytes"@));
    assert(spec_column_lookup(c1, "num_bytes"@) == spec_column_lookup(c2, "num_bytes"@));
    assert(spec_column_lookup(c2, "num_bytes"@) == Some(cols[2].data));
    assert(spec_column_lookup(cols, "null_count"@) == spec_column_lookup(c1, "null_count"@));
    assert(spec_column_lookup(c1, "null_count"@) == spec_column_lookup(c2, "null_count"@));
    assert(spec_column_lookup(c2, "null_count"@) == spec_column_lookup(c3, "null_count"@));
    assert(spec_column_lookup(c3, "null_count"@) == Some(cols[3].data));
}

} // verus!
