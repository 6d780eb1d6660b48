//! Shuffle materialization and query-stage-graph layer of a distributed,
//! columnar query engine: partition statistics with a lossless columnar
//! encoding, a physical plan tree model, a schema-checked shuffle writer
//! state machine, and plan formatting / stage-graph diagram generation.

pub mod diagram;
pub mod plan;
pub mod render;
pub mod schema;
pub mod stats;
pub mod text;
pub mod writer;

pub use stats::PartitionStats;
