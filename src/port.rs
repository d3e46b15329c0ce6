//! The single-producer / single-consumer handshake between two adjacent
//! processors.
use vstd::prelude::*;

verus! {

/// What a processor asks of its driver after inspecting its ports.
#[derive(Debug, Clone, Copy, PartialEq, Eq, Structural)]
pub enum Event {
    /// The processor needs its input to be supplied.
    NeedData,
    /// The processor waits for its output to be consumed.
    NeedConsume,
    /// The processor has CPU work to do: call `process`.
    Sync,
    /// The processor is done and can be retired.
    Finished,
}

/// One channel between an upstream output and a downstream input.
///
/// The producer end pushes into `data` once the consumer has asked for data
/// and the slot is empty; the consumer end pulls it out. `finished` is one
/// flag shared by both ends, so finishing either end is seen by the other.
#[derive(Debug)]
pub struct Port<T> {
    pub data: Option<T>,
    pub need_data: bool,
    pub finished: bool,
}

impl<T> Port<T> {
    /// Whether the producer end may push now.
    pub open spec fn accepts_push(&self) -> bool {
        self.need_data && self.data is None
    }

    /// An open, empty port that has asked for nothing yet.
    pub fn new() -> (r: Self)
        ensures
            r.data is None,
            !r.need_data,
            !r.finished,
    {
        Port { data: None, need_data: false, finished: false }
    }

    /// Consumer end: whether a pushed unit waits to be pulled.
    pub fn has_data(&self) -> (r: bool)
        ensures
            r == self.data is Some,
    {
        self.data.is_some()
    }

    /// Consumer end: takes the waiting unit, if any. Pulling also withdraws
    /// the request for data.
    pub fn pull_data(&mut self) -> (r: Option<T>)
        ensures
            r == old(self).data,
            final(self).data is None,
            !final(self).need_data,
            final(self).finished == old(self).finished,
    {
        self.need_data = false;
        self.data.take()
    }

    /// Consumer end: asks the producer for data.
    pub fn set_need_data(&mut self)
        ensures
            final(self).data == old(self).data,
            final(self).need_data,
            final(self).finished == old(self).finished,
    {
        self.need_data = true;
    }

    /// Consumer end: withdraws the request for data.
    pub fn set_not_need_data(&mut self)
        ensures
            final(self).data == old(self).data,
            !final(self).need_data,
            final(self).finished == old(self).finished,
    {
        self.need_data = false;
    }

    /// Producer end: whether a push is allowed now.
    pub fn can_push(&self) -> (r: bool)
        ensures
            r == self.accepts_push(),
    {
        self.need_data && self.data.is_none()
    }

    /// Producer end: hands one unit to the consumer. Pushing is only allowed
    /// when the consumer has asked for data and the slot is empty.
    pub fn push_data(&mut self, value: T)
        requires
            old(self).accepts_push(),
        ensures
            final(self).data == Some(value),
            final(self).need_data == old(self).need_data,
            final(self).finished == old(self).finished,
    {
        self.data = Some(value);
    }

    /// Either end: whether the channel has been finished.
    pub fn is_finished(&self) -> (r: bool)
        ensures
            r == self.finished,
    {
        self.finished
    }

    /// Either end: finishes the channel for good; the other end sees it.
    pub fn finish(&mut self)
        ensures
            final(self).data == old(self).data,
            final(self).need_data == old(self).need_data,
            final(self).finished,
    {
        self.finished = true;
    }
}

} // verus!
