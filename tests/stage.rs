use std::cell::RefCell;

use fuse_deserialize::block::{
    BlockMeta, DataUnit, DecodeError, PartDescriptor, RawChunk, RawChunkSet, SourceBatch,
    StructuredBlock,
};
use fuse_deserialize::deserializer::{DeserializeDataTransform, StageError};
use fuse_deserialize::port::{Event, Port};
use fuse_deserialize::progress::{ProgressDelta, ProgressSink};

fn part(id: u64) -> PartDescriptor {
    PartDescriptor { id, location: format!("segment/{}.parquet", id) }
}

fn chunks_of(id: u64) -> RawChunkSet {
    vec![
        RawChunk { column: 0, bytes: vec![id as u8; 3] },
        RawChunk { column: 1, bytes: vec![7; 2] },
    ]
}

fn batch(ids: &[u64]) -> DataUnit {
    DataUnit {
        meta: Some(BlockMeta::Source(SourceBatch {
            parts: ids.iter().map(|id| part(*id)).collect(),
            chunks: ids.iter().map(|id| chunks_of(*id)).collect(),
        })),
    }
}

fn decode(p: PartDescriptor, c: RawChunkSet) -> Result<StructuredBlock, DecodeError> {
    Ok(StructuredBlock { num_rows: p.id * 10, columns: c.into_iter().map(|ch| ch.bytes).collect() })
}

fn new_stage() -> DeserializeDataTransform {
    let mut stage = DeserializeDataTransform::create(Port::new(), Port::new(), ProgressSink::new());
    stage.output.set_need_data();
    stage
}

/// Runs the stage over the given batches, with a downstream that always
/// takes what was pushed, and returns the blocks in the order they came out.
fn run(stage: &mut DeserializeDataTransform, batches: Vec<DataUnit>) -> Vec<StructuredBlock> {
    let mut pending = batches.into_iter();
    let mut out = Vec::new();
    for _ in 0..1000 {
        if let Some(block) = stage.output.pull_data() {
            out.push(block);
        }
        if !stage.output.is_finished() {
            stage.output.set_need_data();
        }
        match stage.event().unwrap() {
            Event::Finished => return out,
            Event::Sync => stage.process(&decode).unwrap(),
            Event::NeedConsume => {}
            Event::NeedData => match pending.next() {
                Some(unit) => stage.input.push_data(unit),
                None => stage.input.finish(),
            },
        }
    }
    panic!("the stage did not finish");
}

#[test]
fn two_parts_decode_in_reverse_order() {
    let log = RefCell::new(Vec::new());
    let logging = |p: PartDescriptor, c: RawChunkSet| {
        log.borrow_mut().push(p.id);
        decode(p, c)
    };
    let mut stage = new_stage();
    assert_eq!(stage.event(), Ok(Event::NeedData));
    stage.input.push_data(batch(&[1, 2]));
    assert_eq!(stage.event(), Ok(Event::Sync));
    stage.process(&logging).unwrap();
    assert_eq!(stage.progress().rows, 20);
    assert_eq!(stage.event(), Ok(Event::NeedConsume));
    let first = stage.output.pull_data().unwrap();
    assert_eq!(first.num_rows, 20);
    stage.output.set_need_data();
    assert_eq!(stage.event(), Ok(Event::Sync));
    stage.process(&logging).unwrap();
    assert_eq!(stage.event(), Ok(Event::NeedConsume));
    let second = stage.output.pull_data().unwrap();
    assert_eq!(second.num_rows, 10);
    assert_eq!(*log.borrow(), vec![2, 1]);
    let p = stage.progress();
    assert_eq!(p.rows, 30);
    assert_eq!(p.bytes, 10);
}

#[test]
fn backpressure_reports_need_consume() {
    let mut stage = new_stage();
    assert_eq!(stage.event(), Ok(Event::NeedData));
    stage.input.push_data(batch(&[1, 2]));
    assert_eq!(stage.event(), Ok(Event::Sync));
    stage.process(&decode).unwrap();
    stage.output.set_not_need_data();
    let before = stage.progress();
    for _ in 0..5 {
        assert_eq!(stage.event(), Ok(Event::NeedConsume));
        assert!(!stage.input.need_data);
        assert!(stage.output_data.is_some());
        assert_eq!(stage.parts.len(), 1);
    }
    assert_eq!(stage.progress(), before);
    stage.output.set_need_data();
    assert_eq!(stage.event(), Ok(Event::NeedConsume));
    assert!(stage.output_data.is_none());
    assert_eq!(stage.output.data.as_ref().unwrap().num_rows, 20);
    // The pushed block waits downstream: still no new work.
    assert_eq!(stage.event(), Ok(Event::NeedConsume));
    assert_eq!(stage.parts.len(), 1);
}

#[test]
fn metadata_of_another_kind_fails_fast() {
    let mut stage = new_stage();
    assert_eq!(stage.event(), Ok(Event::NeedData));
    stage.input.push_data(DataUnit { meta: Some(BlockMeta::Other("aggregate_meta".to_string())) });
    assert_eq!(stage.event(), Err(StageError::UnexpectedMeta));
    assert!(stage.parts.is_empty());
}

#[test]
fn missing_metadata_fails_fast() {
    let mut stage = new_stage();
    assert_eq!(stage.event(), Ok(Event::NeedData));
    stage.input.push_data(DataUnit { meta: None });
    assert_eq!(stage.event(), Err(StageError::UnexpectedMeta));
}

#[test]
fn mismatched_batch_is_rejected() {
    let mut stage = new_stage();
    assert_eq!(stage.event(), Ok(Event::NeedData));
    let unit = DataUnit {
        meta: Some(BlockMeta::Source(SourceBatch {
            parts: vec![part(1), part(2)],
            chunks: vec![chunks_of(1)],
        })),
    };
    stage.input.push_data(unit);
    assert_eq!(stage.event(), Err(StageError::MismatchedBatch { parts: 2, chunks: 1 }));
    assert!(stage.parts.is_empty());
    assert!(stage.chunks.is_empty());
}

#[test]
fn finished_input_finishes_output() {
    let mut stage = new_stage();
    stage.input.finish();
    assert_eq!(stage.event(), Ok(Event::Finished));
    assert!(stage.output.is_finished());
    assert_eq!(stage.event(), Ok(Event::Finished));
}

#[test]
fn finished_output_finishes_input_and_stops_work() {
    let mut stage = new_stage();
    assert_eq!(stage.event(), Ok(Event::NeedData));
    stage.input.push_data(batch(&[1, 2, 3]));
    assert_eq!(stage.event(), Ok(Event::Sync));
    stage.output.finish();
    for _ in 0..3 {
        assert_eq!(stage.event(), Ok(Event::Finished));
    }
    assert!(stage.input.is_finished());
    assert_eq!(stage.parts.len(), 3);
    assert_eq!(stage.progress().rows, 0);
}

#[test]
fn every_part_comes_out_once() {
    let mut stage = new_stage();
    let out = run(&mut stage, vec![batch(&[1, 2]), batch(&[]), batch(&[3, 4, 5])]);
    let mut rows: Vec<u64> = out.iter().map(|b| b.num_rows).collect();
    assert_eq!(rows, vec![20, 10, 50, 40, 30]);
    rows.sort();
    assert_eq!(rows, vec![10, 20, 30, 40, 50]);
    assert!(stage.output.is_finished());
}

#[test]
fn progress_sums_decoded_blocks() {
    let mut stage = new_stage();
    let out = run(&mut stage, vec![batch(&[1]), batch(&[2, 3])]);
    let rows: u64 = out.iter().map(|b| b.num_rows).sum();
    let bytes: u64 = out.iter().map(|b| b.memory_size()).sum();
    let p = stage.progress();
    assert_eq!(p.rows, rows);
    assert_eq!(p.bytes, bytes);
    assert_eq!(p.rows, 60);
    assert_eq!(p.bytes, 15);
    for _ in 0..4 {
        assert_eq!(stage.event(), Ok(Event::Finished));
    }
    assert_eq!(stage.progress(), p);
}

#[test]
fn at_most_one_block_is_held_back() {
    let mut stage = new_stage();
    assert_eq!(stage.event(), Ok(Event::NeedData));
    stage.input.push_data(batch(&[1, 2, 3]));
    assert_eq!(stage.event(), Ok(Event::Sync));
    stage.process(&decode).unwrap();
    assert!(stage.output_data.is_some());
    // With a block held back, the stage pushes it rather than decoding more.
    assert_eq!(stage.event(), Ok(Event::NeedConsume));
    assert!(stage.output_data.is_none());
    assert_eq!(stage.parts.len(), 2);
}

#[test]
fn decode_failure_emits_nothing() {
    let failing = |p: PartDescriptor, c: RawChunkSet| {
        if p.id == 2 {
            Err(DecodeError { message: "corrupt page header".to_string() })
        } else {
            decode(p, c)
        }
    };
    let mut stage = new_stage();
    assert_eq!(stage.event(), Ok(Event::NeedData));
    stage.input.push_data(batch(&[1, 2]));
    assert_eq!(stage.event(), Ok(Event::Sync));
    let r = stage.process(&failing);
    assert_eq!(
        r,
        Err(StageError::Decode(DecodeError { message: "corrupt page header".to_string() }))
    );
    assert!(stage.output_data.is_none());
    assert_eq!(stage.parts.len(), 1);
    assert_eq!(stage.progress().rows, 0);
    assert_eq!(stage.progress().bytes, 0);
}

#[test]
fn process_with_nothing_pending_does_nothing() {
    let mut stage = new_stage();
    assert_eq!(stage.process(&decode), Ok(()));
    assert!(stage.output_data.is_none());
    assert_eq!(stage.progress().rows, 0);
}

#[test]
fn sync_arms_input_for_next_batch() {
    let mut stage = new_stage();
    assert_eq!(stage.event(), Ok(Event::NeedData));
    stage.input.push_data(batch(&[1, 2]));
    assert_eq!(stage.event(), Ok(Event::Sync));
    assert!(!stage.input.need_data);
    assert_eq!(stage.event(), Ok(Event::Sync));
    assert!(stage.input.need_data);
}

#[test]
fn stage_name() {
    let stage = new_stage();
    assert_eq!(stage.name(), "DeserializeDataTransform");
}

#[test]
fn progress_adds_to_the_given_sink() {
    let shared = ProgressSink { rows: 1000, bytes: 5 };
    let mut stage = DeserializeDataTransform::create(Port::new(), Port::new(), shared);
    stage.output.set_need_data();
    assert_eq!(stage.progress(), ProgressDelta { rows: 1000, bytes: 5 });
    let out = run(&mut stage, vec![batch(&[1, 2])]);
    assert_eq!(out.len(), 2);
    assert_eq!(stage.progress(), ProgressDelta { rows: 1030, bytes: 15 });
}
