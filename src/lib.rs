//! A pull/push dataflow processor that turns source batches of encoded part
//! chunks into structured data blocks, with backpressure-aware port
//! signalling and progress accounting; and the system tables that expose the
//! allocator's statistics.

pub mod block;
pub mod deserializer;
pub mod jemalloc;
pub mod malloc_stats;
pub mod port;
pub mod progress;
pub mod system_table;
