//! Row and byte counters for query observability and resource limits.
use vstd::prelude::*;

verus! {

/// The rows and bytes of one decoded block.
#[derive(Debug, Clone, Copy, PartialEq, Eq, Structural)]
pub struct ProgressDelta {
    pub rows: u64,
    pub bytes: u64,
}

/// Running totals of rows and bytes. Each counter wraps around at
/// `u64::MAX`, as an atomic fetch-and-add does.
#[derive(Debug, Clone, Copy, PartialEq, Eq, Structural)]
pub struct ProgressSink {
    pub rows: u64,
    pub bytes: u64,
}

/// `a + b`, wrapped around to `u64`.
pub open spec fn wrapped_sum(a: u64, b: u64) -> u64 {
    if a + b > u64::MAX {
        (a + b - 0x1_0000_0000_0000_0000) as u64
    } else {
        (a + b) as u64
    }
}

/// The sum of the row counts of the deltas.
pub open spec fn total_rows(deltas: Seq<ProgressDelta>) -> nat
    decreases deltas.len(),
{
    if deltas.len() == 0 {
        0
    } else {
        total_rows(deltas.drop_last()) + deltas.last().rows as nat
    }
}

/// The sum of the byte counts of the deltas.
pub open spec fn total_bytes(deltas: Seq<ProgressDelta>) -> nat
    decreases deltas.len(),
{
    if deltas.len() == 0 {
        0
    } else {
        total_bytes(deltas.drop_last()) + deltas.last().bytes as nat
    }
}

impl ProgressSink {
    /// The sink after one `add` of `delta`.
    pub open spec fn added(self, delta: ProgressDelta) -> ProgressSink {
        ProgressSink {
            rows: wrapped_sum(self.rows, delta.rows),
            bytes: wrapped_sum(self.bytes, delta.bytes),
        }
    }

    /// The sink `start` after `add` of each delta in turn.
    pub open spec fn accumulated(start: ProgressSink, deltas: Seq<ProgressDelta>) -> ProgressSink
        decreases deltas.len(),
    {
        if deltas.len() == 0 {
            start
        } else {
            Self::accumulated(start, deltas.drop_last()).added(deltas.last())
        }
    }

    /// A sink with both counters at zero.
    pub fn new() -> (r: Self)
        ensures
            r.rows == 0,
            r.bytes == 0,
    {
        ProgressSink { rows: 0, bytes: 0 }
    }

    /// Adds one delta to both counters.
    pub fn add(&mut self, delta: &ProgressDelta)
        ensures
            *final(self) == old(self).added(*delta),
    {
        self.rows = self.rows.wrapping_add(delta.rows);
        self.bytes = self.bytes.wrapping_add(delta.bytes);
    }

    /// The current totals.
    pub fn get_values(&self) -> (r: ProgressDelta)
        ensures
            r.rows == self.rows,
            r.bytes == self.bytes,
    {
        ProgressDelta { rows: self.rows, bytes: self.bytes }
    }
}

/// Adding the deltas one by one to a sink adds exactly their row total and
/// their byte total to it, as long as neither counter passes `u64::MAX`.
pub proof fn lemma_accumulated_is_exact(start: ProgressSink, deltas: Seq<ProgressDelta>)
    requires
        start.rows + total_rows(deltas) <= u64::MAX,
        start.bytes + total_bytes(deltas) <= u64::MAX,
    ensures
        ProgressSink::accumulated(start, deltas).rows == start.rows + total_rows(deltas),
        ProgressSink::accumulated(start, deltas).bytes == start.bytes + total_bytes(deltas),
    decreases deltas.len(),
{
    if deltas.len() > 0 {
        lemma_accumulated_is_exact(start, deltas.drop_last());
    }
}

} // verus!
