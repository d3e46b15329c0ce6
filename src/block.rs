//! What travels through the stage: part descriptors and their raw chunks on
//! the way in, structured blocks on the way out.
use vstd::prelude::*;

verus! {

/// Identifies one unit of storage (a row group or a file fragment) to be
/// read and decoded.
#[derive(Debug, Clone, PartialEq, Eq)]
pub struct PartDescriptor {
    pub id: u64,
    pub location: String,
}

/// The raw, possibly compressed bytes of one column of a part.
#[derive(Debug, Clone, PartialEq, Eq)]
pub struct RawChunk {
    pub column: usize,
    pub bytes: Vec<u8>,
}

/// The undecoded column data of one part, in column order.
pub type RawChunkSet = Vec<RawChunk>;

/// The batch metadata that an upstream reader attaches to a transport unit:
/// the parts it fetched and, position by position, their raw chunks.
#[derive(Debug)]
pub struct SourceBatch {
    pub parts: Vec<PartDescriptor>,
    pub chunks: Vec<RawChunkSet>,
}

/// The metadata payload that may ride on a transport unit.
#[derive(Debug)]
pub enum BlockMeta {
    /// Parts and chunks for the deserialization stage.
    Source(SourceBatch),
    /// A payload of another kind, named by its kind.
    Other(String),
}

/// A transport unit between processors, carrying at most one payload.
#[derive(Debug)]
pub struct DataUnit {
    pub meta: Option<BlockMeta>,
}

/// A decoded, columnar block ready for downstream operators.
#[derive(Debug, Clone, PartialEq, Eq)]
pub struct StructuredBlock {
    pub num_rows: u64,
    pub columns: Vec<Vec<u8>>,
}

/// Why decoding a part failed.
#[derive(Debug, Clone, PartialEq, Eq)]
pub struct DecodeError {
    pub message: String,
}

/// The total length of the given column buffers.
pub open spec fn bytes_of(columns: Seq<Vec<u8>>) -> nat
    decreases columns.len(),
{
    if columns.len() == 0 {
        0
    } else {
        bytes_of(columns.drop_last()) + columns.last()@.len()
    }
}

/// The memory footprint of a block as reported to progress: the bytes held
/// by its columns, capped at `u64::MAX`.
pub open spec fn footprint(block: StructuredBlock) -> u64 {
    let total = bytes_of(block.columns@);
    if total <= u64::MAX {
        total as u64
    } else {
        u64::MAX
    }
}

impl DataUnit {
    /// Removes and returns the payload, leaving the unit bare.
    pub fn take_meta(&mut self) -> (r: Option<BlockMeta>)
        ensures
            r == old(self).meta,
            final(self).meta is None,
    {
        self.meta.take()
    }
}

impl StructuredBlock {
    /// The number of rows of the block.
    pub fn num_rows(&self) -> (r: u64)
        ensures
            r == self.num_rows,
    {
        self.num_rows
    }

    /// The bytes held by the block's columns, saturating at `u64::MAX`.
    pub fn memory_size(&self) -> (r: u64)
        ensures
            r == footprint(*self),
    {
        let mut total: u64 = 0;
        let mut i: usize = 0;
        while i < self.columns.len()
            invariant
                i <= self.columns@.len(),
                total == (if bytes_of(self.columns@.subrange(0, i as int)) <= u64::MAX {
                    bytes_of(self.columns@.subrange(0, i as int))
                } else {
                    u64::MAX as nat
                }),
            decreases self.columns@.len() - i,
        {
            let ghost prefix = self.columns@.subrange(0, i as int);
            let ghost next = self.columns@.subrange(0, i + 1);
            assert(next.drop_last() =~= prefix);
            let len = self.columns[i].len() as u64;
            total = total.saturating_add(len);
            i = i + 1;
        }
        assert(self.columns@.subrange(0, i as int) =~= self.columns@);
        total
    }
}

} // verus!
