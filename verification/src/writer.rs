//! The shuffle writer's decision core: a state machine that checks every
//! batch against the schema the partition file was opened with, accumulates
//! partition statistics in arrival order, and only hands the statistics out
//! once the whole stream was consumed. The surrounding I/O (creating the
//! file, appending the encoded batches, renaming on success) drives these
//! steps and never finalizes a partial write.

use vstd::prelude::*;

use crate::schema::{schema_eq, schema_matches, Field};
use crate::stats::PartitionStats;

verus! {

/// Summary of one record batch handed to the writer: its schema and the
/// counts that feed the partition statistics.
#[derive(Debug)]
pub struct BatchMeta {
    pub schema: Vec<Field>,
    pub num_rows: u64,
    pub num_bytes: u64,
    pub null_count: u64,
}

/// One observation of a stage's output stream: a batch arrived, or reading
/// the next batch failed.
#[derive(Debug)]
pub enum BatchEvent {
    Batch(BatchMeta),
    ReadError,
}

/// Why a shuffle write aborted.
#[derive(Debug, Clone, Copy, PartialEq, Eq, Structural)]
pub enum WriteError {
    /// A batch's schema differs from the schema the file was opened with.
    SchemaMismatch,
    /// The stream failed while producing a batch.
    BatchRead,
}

/// Statistics before anything was written.
pub open spec fn zero_stats() -> PartitionStats {
    PartitionStats { num_rows: 0, num_batches: 0, num_bytes: 0, null_count: 0 }
}

/// The statistics after one more batch.
pub open spec fn spec_accumulate(acc: PartitionStats, b: BatchMeta) -> PartitionStats {
    PartitionStats {
        num_rows: (acc.num_rows + b.num_rows) as u64,
        num_batches: (acc.num_batches + 1) as u64,
        num_bytes: (acc.num_bytes + b.num_bytes) as u64,
        null_count: (acc.null_count + b.null_count) as u64,
    }
}

/// What consuming the stream `evs` does, starting from `acc`: the first read
/// failure or schema mismatch aborts the write; otherwise every batch is
/// accumulated in order and the final statistics come back.
pub open spec fn spec_write(schema: Seq<Field>, evs: Seq<BatchEvent>, acc: PartitionStats) -> Result<
    PartitionStats,
    WriteError,
>
    decreases evs.len(),
{
    if evs.len() == 0 {
        Ok(acc)
    } else {
        match evs[0] {
            BatchEvent::ReadError => Err(WriteError::BatchRead),
            BatchEvent::Batch(b) => if !schema_matches(schema, b.schema@) {
                Err(WriteError::SchemaMismatch)
            } else {
                spec_write(schema, evs.drop_first(), spec_accumulate(acc, b))
            },
        }
    }
}

/// The sum of `f` over the batches of `evs`.
pub open spec fn total_of(evs: Seq<BatchEvent>, f: spec_fn(BatchMeta) -> int) -> int
    decreases evs.len(),
{
    if evs.len() == 0 {
        0
    } else {
        (match evs[0] {
            BatchEvent::Batch(b) => f(b),
            BatchEvent::ReadError => 0,
        }) + total_of(evs.drop_first(), f)
    }
}

pub open spec fn total_rows(evs: Seq<BatchEvent>) -> int {
    total_of(evs, |b: BatchMeta| b.num_rows as int)
}

pub open spec fn total_bytes(evs: Seq<BatchEvent>) -> int {
    total_of(evs, |b: BatchMeta| b.num_bytes as int)
}

pub open spec fn total_nulls(evs: Seq<BatchEvent>) -> int {
    total_of(evs, |b: BatchMeta| b.null_count as int)
}

/// Every event of `evs` is a batch whose schema matches `schema`.
pub open spec fn stream_clean(schema: Seq<Field>, evs: Seq<BatchEvent>) -> bool {
    forall|i: int|
        0 <= i < evs.len() ==> (#[trigger] evs[i] matches BatchEvent::Batch(b) && schema_matches(
            schema,
            b.schema@,
        ))
}

proof fn lemma_total_of_nonneg(evs: Seq<BatchEvent>, f: spec_fn(BatchMeta) -> int)
    requires
        forall|b: BatchMeta| #[trigger] f(b) >= 0,
    ensures
        total_of(evs, f) >= 0,
    decreases evs.len(),
{
    if evs.len() != 0 {
        lemma_total_of_nonneg(evs.drop_first(), f);
    }
}

/// Write accuracy: over a stream with no read failures whose batches all
/// match the schema, the write succeeds and the statistics are exactly the
/// batch count and the per-batch sums of rows, bytes and nulls.
pub proof fn lemma_write_accuracy(schema: Seq<Field>, evs: Seq<BatchEvent>, acc: PartitionStats)
    requires
        stream_clean(schema, evs),
        acc.num_rows + total_rows(evs) <= u64::MAX,
        acc.num_batches + evs.len() <= u64::MAX,
        acc.num_bytes + total_bytes(evs) <= u64::MAX,
        acc.null_count + total_nulls(evs) <= u64::MAX,
    ensures
        spec_write(schema, evs, acc) == Ok::<PartitionStats, WriteError>(
            PartitionStats {
                num_rows: (acc.num_rows + total_rows(evs)) as u64,
                num_batches: (acc.num_batches + evs.len()) as u64,
                num_bytes: (acc.num_bytes + total_bytes(evs)) as u64,
                null_count: (acc.null_count + total_nulls(evs)) as u64,
            },
        ),
    decreases evs.len(),
{
    lemma_total_of_nonneg(evs, |b: BatchMeta| b.num_rows as int);
    lemma_total_of_nonneg(evs, |b: BatchMeta| b.num_bytes as int);
    lemma_total_of_nonneg(evs, |b: BatchMeta| b.null_count as int);
    if evs.len() == 0 {
        assert(acc == (PartitionStats {
            num_rows: (acc.num_rows + total_rows(evs)) as u64,
            num_batches: (acc.num_batches + evs.len()) as u64,
            num_bytes: (acc.num_bytes + total_bytes(evs)) as u64,
            null_count: (acc.null_count + total_nulls(evs)) as u64,
        }));
    } else {
        assert((evs[0] matches BatchEvent::Batch(b) && schema_matches(schema, b.schema@)));
        let b = evs[0]->Batch_0;
        let rest = evs.drop_first();
        assert(forall|i: int| 0 <= i < rest.len() ==> rest[i] == evs[i + 1]);
        lemma_total_of_nonneg(rest, |b: BatchMeta| b.num_rows as int);
        lemma_total_of_nonneg(rest, |b: BatchMeta| b.num_bytes as int);
        lemma_total_of_nonneg(rest, |b: BatchMeta| b.null_count as int);
        lemma_write_accuracy(schema, rest, spec_accumulate(acc, b));
    }
}

/// The writing half of materializing one partition: the schema the file was
/// opened with, the statistics accumulated so far, and whether the file was
/// finalized. A writer that was never finished stands for a partial file
/// that no downstream reader may treat as valid.
#[derive(Debug)]
pub struct ShuffleWriter {
    pub schema: Vec<Field>,
    pub stats: PartitionStats,
    pub finished: bool,
}

impl ShuffleWriter {
    /// Opens a writer for a partition file with the stream's declared
    /// schema; nothing is accumulated yet.
    pub fn new(schema: Vec<Field>) -> (w: ShuffleWriter)
        ensures
            w.schema@ == schema@,
            w.stats == zero_stats(),
            !w.finished,
    {
        ShuffleWriter {
            schema,
            stats: PartitionStats { num_rows: 0, num_batches: 0, num_bytes: 0, null_count: 0 },
            finished: false,
        }
    }

    /// Accepts one batch: succeeds and accumulates exactly when the batch's
    /// schema matches the file's schema, and otherwise rejects the batch and
    /// leaves the statistics untouched (the caller must abort the file).
    pub fn append_batch(&mut self, batch: &BatchMeta) -> (r: Result<(), WriteError>)
        requires
            !old(self).finished,
            old(self).stats.num_rows + batch.num_rows <= u64::MAX,
            old(self).stats.num_batches + 1 <= u64::MAX,
            old(self).stats.num_bytes + batch.num_bytes <= u64::MAX,
            old(self).stats.null_count + batch.null_count <= u64::MAX,
        ensures
            final(self).schema@ == old(self).schema@,
            !final(self).finished,
            r is Ok <==> schema_matches(old(self).schema@, batch.schema@),
            r is Ok ==> final(self).stats == spec_accumulate(old(self).stats, *batch),
            r is Err ==> final(self).stats == old(self).stats && r == Err::<(), WriteError>(
                WriteError::SchemaMismatch,
            ),
    {
        if !schema_eq(&self.schema, &batch.schema) {
            return Err(WriteError::SchemaMismatch);
        }
        self.stats.num_rows = self.stats.num_rows + batch.num_rows;
        self.stats.num_batches = self.stats.num_batches + 1;
        self.stats.num_bytes = self.stats.num_bytes + batch.num_bytes;
        self.stats.null_count = self.stats.null_count + batch.null_count;
        Ok(())
    }

    /// Finalizes the file and hands the accumulated statistics out. Only a
    /// finished writer stands for a valid, complete partition file.
    pub fn finish(&mut self) -> (r: PartitionStats)
        requires
            !old(self).finished,
        ensures
            final(self).schema@ == old(self).schema@,
            final(self).stats == old(self).stats,
            final(self).finished,
            r == old(self).stats,
    {
        self.finished = true;
        self.stats
    }
}

/// Consumes a whole stream of batch events against `schema`: the first read
/// failure or schema mismatch aborts with that error and no statistics are
/// produced; otherwise the accumulated statistics of the complete stream
/// come back, exactly as `spec_write` describes.
pub fn write_stream_to_disk(schema: Vec<Field>, events: &Vec<BatchEvent>) -> (r: Result<
    PartitionStats,
    WriteError,
>)
    requires
        total_rows(events@) <= u64::MAX,
        events@.len() <= u64::MAX,
        total_bytes(events@) <= u64::MAX,
        total_nulls(events@) <= u64::MAX,
    ensures
        r == spec_write(schema@, events@, zero_stats()),
{
    let ghost schema_view = schema@;
    let mut w = ShuffleWriter::new(schema);
    proof {
        assert(events@.skip(0) =~= events@);
        lemma_total_of_nonneg(events@, |b: BatchMeta| b.num_rows as int);
        lemma_total_of_nonneg(events@, |b: BatchMeta| b.num_bytes as int);
        lemma_total_of_nonneg(events@, |b: BatchMeta| b.null_count as int);
    }
    let mut i: usize = 0;
    while i < events.len()
        invariant
            i <= events@.len(),
            w.schema@ == schema@,
            !w.finished,
            w.stats.num_rows + total_rows(events@.skip(i as int)) <= u64::MAX,
            w.stats.num_batches + (events@.len() - i) <= u64::MAX,
            w.stats.num_bytes + total_bytes(events@.skip(i as int)) <= u64::MAX,
            w.stats.null_count + total_nulls(events@.skip(i as int)) <= u64::MAX,
            spec_write(schema@, events@, zero_stats()) == spec_write(
                schema@,
                events@.skip(i as int),
                w.stats,
            ),
        decreases events@.len() - i,
    {
        let ghost rest = events@.skip(i as int);
        proof {
            assert(rest[0] == events@[i as int]);
            assert(rest.drop_first() =~= events@.skip(i as int + 1));
            lemma_total_of_nonneg(rest.drop_first(), |b: BatchMeta| b.num_rows as int);
            lemma_total_of_nonneg(rest.drop_first(), |b: BatchMeta| b.num_bytes as int);
            lemma_total_of_nonneg(rest.drop_first(), |b: BatchMeta| b.null_count as int);
        }
        match &events[i] {
            BatchEvent::ReadError => {
                return Err(WriteError::BatchRead);
            },
            BatchEvent::Batch(b) => {
                let step = w.append_batch(b);
                if step.is_err() {
                    return Err(WriteError::SchemaMismatch);
                }
            },
        }
        i = i + 1;
    }
    proof {
        assert(events@.skip(events@.len() as int) =~= Seq::<BatchEvent>::empty());
    }
    let stats = w.finish();
    Ok(stats)
}

/// What collecting a stream in memory yields: all items in arrival order, or
/// the first failure, with nothing kept of a partially read stream.
pub open spec fn spec_collect<T, E>(items: Seq<Result<T, E>>) -> Result<Seq<T>, E>
    decreases items.len(),
{
    if items.len() == 0 {
        Ok(Seq::empty())
    } else {
        match items[0] {
            Err(e) => Err(e),
            Ok(t) => match spec_collect(items.drop_first()) {
                Ok(rest) => Ok(seq![t] + rest),
                Err(e) => Err(e),
            },
        }
    }
}

/// Accumulates an entire stream of fallible items in memory, preserving
/// arrival order; the first failure aborts the whole collection and no
/// partial result is returned.
pub fn collect_stream<T, E>(items: Vec<Result<T, E>>) -> (r: Result<Vec<T>, E>)
    ensures
        r matches Ok(v) ==> spec_collect(items@) == Ok::<Seq<T>, E>(v@),
        r matches Err(e) ==> spec_collect(items@) == Err::<Seq<T>, E>(e),
    decreases items@.len(),
{
    let mut items = items;
    if items.len() == 0 {
        let empty: Vec<T> = Vec::new();
        proof {
            assert(empty@ =~= Seq::<T>::empty());
        }
        Ok(empty)
    } else {
        let ghost orig = items@;
        let first = items.remove(0);
        proof {
            assert(items@ =~= orig.drop_first());
        }
        match first {
            Err(e) => Err(e),
            Ok(t) => match collect_stream(items) {
                Ok(mut rest) => {
                    let ghost rest_before = rest@;
                    rest.insert(0, t);
                    proof {
                        assert(rest@ =~= seq![t] + rest_before);
                        assert(spec_collect(orig) == Ok::<Seq<T>, E>(seq![t] + rest_before));
                    }
                    Ok(rest)
                },
                Err(e) => Err(e),
            },
        }
    }
}

} // verus!
