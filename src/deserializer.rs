//! The deserialization stage: a processor that pulls source batches, decodes
//! their parts one at a time and pushes the structured blocks downstream.
use vstd::prelude::*;

use crate::block::{
    footprint, BlockMeta, DecodeError, DataUnit, PartDescriptor, RawChunkSet, StructuredBlock,
};
use crate::port::{Event, Port};
use crate::progress::{lemma_accumulated_is_exact, total_bytes, total_rows, ProgressDelta, ProgressSink};

verus! {

/// Why the stage stopped its pipeline branch.
#[derive(Debug, Clone, PartialEq, Eq)]
pub enum StageError {
    /// An input unit carried no source batch, or metadata of another kind.
    UnexpectedMeta,
    /// A source batch whose part list and chunk list differ in length.
    MismatchedBatch { parts: usize, chunks: usize },
    /// The decoder rejected a part.
    Decode(DecodeError),
}

/// The progress that one decoded block accounts for.
pub open spec fn delta_of(block: StructuredBlock) -> ProgressDelta {
    ProgressDelta { rows: block.num_rows, bytes: footprint(block) }
}

/// Decodes source batches into structured blocks.
///
/// Progress is added to the sink that the stage was created with. Besides
/// its ports and pending work, the stage keeps in ghost state the sink's
/// value at creation, every part it received and every part it handed to the
/// decoder (in order), the number of blocks it pushed and of decodes that
/// failed, and the progress delta of every block it decoded.
pub struct DeserializeDataTransform {
    pub input: Port<DataUnit>,
    pub output: Port<StructuredBlock>,
    pub output_data: Option<StructuredBlock>,
    pub parts: Vec<PartDescriptor>,
    pub chunks: Vec<RawChunkSet>,
    pub scan_progress: ProgressSink,
    pub start_progress: Ghost<ProgressSink>,
    pub received: Ghost<Seq<PartDescriptor>>,
    pub handed: Ghost<Seq<PartDescriptor>>,
    pub emitted: Ghost<nat>,
    pub failed: Ghost<nat>,
    pub decoded: Ghost<Seq<ProgressDelta>>,
}

impl DeserializeDataTransform {
    /// The number of decoded blocks held back for the output: zero or one.
    pub open spec fn buffered(&self) -> nat {
        if self.output_data is Some {
            1
        } else {
            0
        }
    }

    /// Parts and chunks pair up one to one; the parts received are, as a
    /// multiset, those handed to the decoder and those pending; each part
    /// handed over was decoded or failed, and each decoded block was pushed
    /// or is held back; progress is the starting sink plus the deltas of the
    /// blocks decoded, the last of which belongs to a block still held back.
    pub open spec fn wf(&self) -> bool {
        &&& self.parts@.len() == self.chunks@.len()
        &&& self.received@.len() == self.handed@.len() + self.parts@.len()
        &&& self.received@.to_multiset() =~= self.handed@.to_multiset().add(
            self.parts@.to_multiset(),
        )
        &&& self.handed@.len() == self.decoded@.len() + self.failed@
        &&& self.decoded@.len() == self.emitted@ + self.buffered()
        &&& self.scan_progress == ProgressSink::accumulated(self.start_progress@, self.decoded@)
        &&& self.output_data matches Some(b) ==> self.decoded@.last() == delta_of(b)
    }

    /// Everything but the ports is as in `other`.
    pub open spec fn keeps_work(&self, other: Self) -> bool {
        &&& self.output_data == other.output_data
        &&& self.parts@ == other.parts@
        &&& self.chunks@ == other.chunks@
        &&& self.scan_progress == other.scan_progress
        &&& self.start_progress == other.start_progress
        &&& self.received == other.received
        &&& self.handed == other.handed
        &&& self.emitted == other.emitted
        &&& self.failed == other.failed
        &&& self.decoded == other.decoded
    }

    /// A stage between the two ports, with nothing pending, that adds its
    /// progress to `scan_progress`.
    pub fn create(
        input: Port<DataUnit>,
        output: Port<StructuredBlock>,
        scan_progress: ProgressSink,
    ) -> (r: Self)
        ensures
            r.wf(),
            r.input == input,
            r.output == output,
            r.scan_progress == scan_progress,
            r.start_progress@ == scan_progress,
            r.output_data is None,
            r.parts@.len() == 0,
            r.chunks@.len() == 0,
            r.received@.len() == 0,
            r.handed@.len() == 0,
            r.emitted@ == 0,
            r.failed@ == 0,
            r.decoded@.len() == 0,
    {
        proof {
            broadcast use vstd::seq_lib::group_to_multiset_ensures;
            broadcast use vstd::multiset::group_multiset_axioms;

            let empty = Seq::<PartDescriptor>::empty();
            assert(empty.to_multiset() =~= empty.to_multiset().add(empty.to_multiset()));
        }
        DeserializeDataTransform {
            input,
            output,
            output_data: None,
            parts: Vec::new(),
            chunks: Vec::new(),
            scan_progress,
            start_progress: Ghost(scan_progress),
            received: Ghost(Seq::empty()),
            handed: Ghost(Seq::empty()),
            emitted: Ghost(0),
            failed: Ghost(0),
            decoded: Ghost(Seq::empty()),
        }
    }

    /// Inspects the ports and pending work and decides what the driver does
    /// next. Downstream backpressure comes first, then a buffered block, then
    /// pending parts, then a new batch, and termination last.
    pub fn event(&mut self) -> (r: Result<Event, StageError>)
        requires
            old(self).wf(),
        ensures
            final(self).wf(),
            final(self).scan_progress == old(self).scan_progress,
            final(self).decoded == old(self).decoded,
            r == Ok::<Event, StageError>(Event::Sync) ==> final(self).output_data is None,
            old(self).input.finished && old(self).input.data is None && old(self).parts@.len()
                == 0 && old(self).output_data is None && (old(self).output.finished
                || old(self).output.accepts_push()) ==> r == Ok::<Event, StageError>(
                Event::Finished,
            ) && final(self).output.finished,
            old(self).output.finished ==> {
                &&& r == Ok::<Event, StageError>(Event::Finished)
                &&& final(self).input.finished
                &&& final(self).input.data == old(self).input.data
                &&& final(self).input.need_data == old(self).input.need_data
                &&& final(self).output == old(self).output
                &&& final(self).keeps_work(*old(self))
            },
            !old(self).output.finished && !old(self).output.accepts_push() ==> {
                &&& r == Ok::<Event, StageError>(Event::NeedConsume)
                &&& !final(self).input.need_data
                &&& final(self).input.data == old(self).input.data
                &&& final(self).input.finished == old(self).input.finished
                &&& final(self).output == old(self).output
                &&& final(self).keeps_work(*old(self))
            },
            !old(self).output.finished && old(self).output.accepts_push()
                && old(self).output_data is Some ==> {
                &&& r == Ok::<Event, StageError>(Event::NeedConsume)
                &&& final(self).output.data == old(self).output_data
                &&& final(self).output.need_data == old(self).output.need_data
                &&& final(self).output.finished == old(self).output.finished
                &&& final(self).output_data is None
                &&& final(self).emitted@ == old(self).emitted@ + 1
                &&& final(self).input == old(self).input
                &&& final(self).parts@ == old(self).parts@
                &&& final(self).chunks@ == old(self).chunks@
                &&& final(self).received == old(self).received
                &&& final(self).handed == old(self).handed
                &&& final(self).failed == old(self).failed
            },
            !old(self).output.finished && old(self).output.accepts_push()
                && old(self).output_data is None && old(self).parts@.len() > 0 ==> {
                &&& r == Ok::<Event, StageError>(Event::Sync)
                &&& final(self).input.need_data == (old(self).input.need_data
                    || old(self).input.data is None)
                &&& final(self).input.data == old(self).input.data
                &&& final(self).input.finished == old(self).input.finished
                &&& final(self).output == old(self).output
                &&& final(self).keeps_work(*old(self))
            },
            !old(self).output.finished && old(self).output.accepts_push()
                && old(self).output_data is None && old(self).parts@.len() == 0
                && old(self).input.data is Some ==> {
                &&& final(self).input.data is None
                &&& !final(self).input.need_data
                &&& final(self).input.finished == old(self).input.finished
                &&& final(self).output == old(self).output
                &&& final(self).output_data is None
                &&& final(self).emitted == old(self).emitted
                &&& final(self).failed == old(self).failed
                &&& final(self).handed == old(self).handed
                &&& final(self).scan_progress == old(self).scan_progress
                &&& final(self).start_progress == old(self).start_progress
                &&& match old(self).input.data->0.meta {
                    Some(BlockMeta::Source(batch)) => if batch.parts@.len()
                        == batch.chunks@.len() {
                        &&& r == Ok::<Event, StageError>(Event::Sync)
                        &&& final(self).parts@ == batch.parts@
                        &&& final(self).chunks@ == batch.chunks@
                        &&& final(self).received@ == old(self).received@ + batch.parts@
                    } else {
                        &&& r == Err::<Event, StageError>(
                            StageError::MismatchedBatch {
                                parts: batch.parts.len(),
                                chunks: batch.chunks.len(),
                            },
                        )
                        &&& final(self).parts@ == old(self).parts@
                        &&& final(self).chunks@ == old(self).chunks@
                        &&& final(self).received == old(self).received
                    },
                    _ => {
                        &&& r == Err::<Event, StageError>(StageError::UnexpectedMeta)
                        &&& final(self).parts@ == old(self).parts@
                        &&& final(self).chunks@ == old(self).chunks@
                        &&& final(self).received == old(self).received
                    },
                }
            },
            !old(self).output.finished && old(self).output.accepts_push()
                && old(self).output_data is None && old(self).parts@.len() == 0
                && old(self).input.data is None && old(self).input.finished ==> {
                &&& r == Ok::<Event, StageError>(Event::Finished)
                &&& final(self).output.finished
                &&& final(self).output.data == old(self).output.data
                &&& final(self).output.need_data == old(self).output.need_data
                &&& final(self).input == old(self).input
                &&& final(self).keeps_work(*old(self))
            },
            !old(self).output.finished && old(self).output.accepts_push()
                && old(self).output_data is None && old(self).parts@.len() == 0
                && old(self).input.data is None && !old(self).input.finished ==> {
                &&& r == Ok::<Event, StageError>(Event::NeedData)
                &&& final(self).input.need_data
                &&& final(self).input.data == old(self).input.data
                &&& final(self).input.finished == old(self).input.finished
                &&& final(self).output == old(self).output
                &&& final(self).keeps_work(*old(self))
            },
    {
        if self.output.is_finished() {
            self.input.finish();
            return Ok(Event::Finished);
        }
        if !self.output.can_push() {
            self.input.set_not_need_data();
            return Ok(Event::NeedConsume);
        }
        if let Some(block) = self.output_data.take() {
            self.output.push_data(block);
            self.emitted = Ghost(self.emitted@ + 1nat);
            return Ok(Event::NeedConsume);
        }
        if !self.chunks.is_empty() {
            if !self.input.has_data() {
                self.input.set_need_data();
            }
            return Ok(Event::Sync);
        }
        if self.input.has_data() {
            let mut unit = self.input.pull_data().unwrap();
            if let Some(BlockMeta::Source(batch)) = unit.take_meta() {
                let n_parts = batch.parts.len();
                let n_chunks = batch.chunks.len();
                if n_parts != n_chunks {
                    return Err(StageError::MismatchedBatch { parts: n_parts, chunks: n_chunks });
                }
                proof {
                    broadcast use vstd::seq_lib::group_to_multiset_ensures;

                    vstd::seq_lib::lemma_multiset_commutative(self.received@, batch.parts@);
                    assert(self.parts@ =~= Seq::<PartDescriptor>::empty());
                    assert(self.handed@.to_multiset().add(batch.parts@.to_multiset())
                        =~= self.received@.to_multiset().add(batch.parts@.to_multiset()));
                }
                let ghost received = self.received@ + batch.parts@;
                self.received = Ghost(received);
                self.parts = batch.parts;
                self.chunks = batch.chunks;
                return Ok(Event::Sync);
            }
            return Err(StageError::UnexpectedMeta);
        }
        if self.input.is_finished() {
            self.output.finish();
            return Ok(Event::Finished);
        }
        self.input.set_need_data();
        Ok(Event::NeedData)
    }

    /// Decodes the most recently received pending part (last in, first out)
    /// with `decode`, adds its rows and bytes to progress and holds the block
    /// for the output. With nothing pending it does nothing. A decode failure
    /// consumes the part and leaves no block and no progress behind.
    ///
    /// The driver calls it only after `event` reported `Sync`, when no block
    /// is held back.
    pub fn process<F>(&mut self, decode: &F) -> (r: Result<(), StageError>)
        where
            F: Fn(PartDescriptor, RawChunkSet) -> Result<StructuredBlock, DecodeError>,
        requires
            old(self).wf(),
            old(self).output_data is None,
            forall|p: PartDescriptor, c: RawChunkSet| decode.requires((p, c)),
        ensures
            final(self).wf(),
            final(self).input == old(self).input,
            final(self).output == old(self).output,
            final(self).received == old(self).received,
            final(self).start_progress == old(self).start_progress,
            final(self).emitted == old(self).emitted,
            old(self).parts@.len() == 0 ==> r is Ok && *final(self) == *old(self),
            old(self).parts@.len() > 0 ==> {
                let part = old(self).parts@.last();
                let chunks = old(self).chunks@.last();
                &&& final(self).parts@ == old(self).parts@.drop_last()
                &&& final(self).chunks@ == old(self).chunks@.drop_last()
                &&& final(self).handed@ == old(self).handed@.push(part)
                &&& match r {
                    Ok(_) => {
                        &&& final(self).output_data matches Some(b) && {
                            &&& decode.ensures((part, chunks), Ok::<StructuredBlock, DecodeError>(b))
                            &&& final(self).scan_progress == old(self).scan_progress.added(delta_of(b))
                            &&& final(self).decoded@ == old(self).decoded@.push(delta_of(b))
                        }
                        &&& final(self).failed == old(self).failed
                    },
                    Err(e) => {
                        &&& e matches StageError::Decode(de) && decode.ensures(
                            (part, chunks),
                            Err::<StructuredBlock, DecodeError>(de),
                        )
                        &&& final(self).output_data is None
                        &&& final(self).scan_progress == old(self).scan_progress
                        &&& final(self).decoded == old(self).decoded
                        &&& final(self).failed@ == old(self).failed@ + 1
                    },
                }
            },
    {
        if self.parts.is_empty() {
            return Ok(());
        }
        let part = self.parts.pop().unwrap();
        let chunks = self.chunks.pop().unwrap();
        proof {
            broadcast use vstd::seq_lib::group_to_multiset_ensures;

            assert(old(self).parts@ =~= self.parts@.push(part));
            self.handed@ = self.handed@.push(part);
            assert(self.received@.to_multiset() =~= self.handed@.to_multiset().add(
                self.parts@.to_multiset(),
            ));
        }
        match decode(part, chunks) {
            Ok(block) => {
                let delta = ProgressDelta { rows: block.num_rows(), bytes: block.memory_size() };
                self.scan_progress.add(&delta);
                let ghost before = self.decoded@;
                self.decoded = Ghost(before.push(delta));
                assert(self.decoded@.drop_last() =~= before);
                self.output_data = Some(block);
                Ok(())
            },
            Err(e) => {
                self.failed = Ghost(self.failed@ + 1nat);
                Err(StageError::Decode(e))
            },
        }
    }

    /// The processor's name, as shown in pipeline descriptions.
    pub fn name(&self) -> (r: String)
        ensures
            r@ == "DeserializeDataTransform"@,
    {
        "DeserializeDataTransform".to_owned()
    }

    /// The rows and bytes decoded so far.
    pub fn progress(&self) -> (r: ProgressDelta)
        ensures
            r.rows == self.scan_progress.rows,
            r.bytes == self.scan_progress.bytes,
    {
        self.scan_progress.get_values()
    }
}

/// No part is dropped or duplicated: the parts taken from source batches
/// are, as a multiset, the parts handed to the decoder and the parts still
/// pending; each part handed over was decoded into a block or failed; each
/// decoded block has been pushed downstream or is held back. So once the
/// stage has drained without a decode failure, every part received went to
/// the decoder exactly once and as many blocks were pushed as parts received.
pub proof fn lemma_parts_conserved(stage: DeserializeDataTransform)
    requires
        stage.wf(),
    ensures
        stage.received@.to_multiset() == stage.handed@.to_multiset().add(
            stage.parts@.to_multiset(),
        ),
        stage.received@.len() == stage.emitted@ + stage.failed@ + stage.parts@.len()
            + stage.buffered(),
        stage.failed@ == 0 && stage.parts@.len() == 0 && stage.output_data is None ==> {
            &&& stage.handed@.to_multiset() == stage.received@.to_multiset()
            &&& stage.emitted@ == stage.received@.len()
        },
{
    broadcast use vstd::seq_lib::group_to_multiset_ensures;

    if stage.parts@.len() == 0 {
        assert(stage.parts@ =~= Seq::<PartDescriptor>::empty());
        assert(stage.handed@.to_multiset().add(stage.parts@.to_multiset())
            =~= stage.handed@.to_multiset());
    }
}

/// Progress is the sink's value at creation plus exactly the rows and the
/// bytes of all the blocks that the stage decoded, as long as neither
/// counter passes `u64::MAX`. (`event` leaves progress alone, however often
/// it is polled.)
pub proof fn lemma_progress_exact(stage: DeserializeDataTransform)
    requires
        stage.wf(),
        stage.start_progress@.rows + total_rows(stage.decoded@) <= u64::MAX,
        stage.start_progress@.bytes + total_bytes(stage.decoded@) <= u64::MAX,
    ensures
        stage.scan_progress.rows == stage.start_progress@.rows + total_rows(stage.decoded@),
        stage.scan_progress.bytes == stage.start_progress@.bytes + total_bytes(stage.decoded@),
{
    lemma_accumulated_is_exact(stage.start_progress@, stage.decoded@);
}

} // verus!
