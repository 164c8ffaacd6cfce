//! The enrichment run as a state machine.
//!
//! A run asks the record store where to resume, streams the raw
//! transactions after that point, has each decoded twice, buffers the
//! enriched records and flushes the buffer whenever it is full and once
//! more when the stream ends. The machine decides; the caller performs each
//! [`Action`] and reports what came of it as an [`Event`].

use vstd::prelude::*;
use vstd::pervasive::unreached;
use crate::mongodb::Transaction;
use crate::roninrest::RRDecodedTransaction;

verus! {

/// The number of records that a buffer holds unless told otherwise.
pub const DEFAULT_CAPACITY: usize = 5000;

/// Why a run stopped before its end.
#[derive(Clone, Copy, Debug, PartialEq, Eq, Structural)]
pub enum Fault {
    /// The store failed to answer the resume query or to advance the cursor.
    StoreRead,
    /// The cursor yielded a block at or below the resume point, or below the
    /// block before it.
    Sequence,
    /// The decoder gave up on a transaction.
    Decode,
    /// The store did not take a batch.
    StoreWrite,
    /// The count of records no longer fits the progress counter.
    Count,
    /// An event arrived that the run was not waiting for.
    Protocol,
}

/// What the run is waiting for.
#[derive(Clone, Copy, Debug, PartialEq, Eq, Structural)]
pub enum Phase {
    /// The resume point.
    Resuming,
    /// The next raw transaction, or the end of the stream.
    Streaming,
    /// The decoded method call of the pending transaction.
    DecodingMethod,
    /// The decoded receipt of the pending transaction.
    DecodingReceipt,
    /// The store's answer to a full batch.
    Flushing,
    /// The store's answer to the last, partial batch.
    Draining,
    /// Nothing: the run is complete.
    Done,
    /// Nothing: the run has failed.
    Halted(Fault),
}

/// What the caller reports to the run.
#[derive(Debug)]
pub enum Event {
    /// The highest block already enriched; 0 where nothing is.
    ResumePoint(u64),
    /// The store failed on a read.
    StoreReadFailed,
    /// The cursor yielded a raw transaction.
    Next(Transaction),
    /// The cursor is exhausted.
    Exhausted,
    /// The decoder returned the method call.
    MethodDecoded(serde_json::Value),
    /// The decoder returned the receipt.
    ReceiptDecoded(serde_json::Value),
    /// The decoder gave up.
    DecodeFailed,
    /// The store took the whole batch.
    Flushed,
    /// The store did not take the whole batch.
    FlushFailed,
}

/// What the run asks of the caller.
#[derive(Clone, Debug, PartialEq, Eq)]
pub enum Action {
    /// Open a cursor over the raw transactions of blocks strictly above
    /// `after`, in ascending block order, and report its first item.
    OpenCursor { after: u64 },
    /// Report the cursor's next item.
    Pull,
    /// Have the method call of the transaction `hash` decoded.
    DecodeMethod { hash: String },
    /// Have the receipt of the transaction `hash` decoded.
    DecodeReceipt { hash: String },
    /// Insert the current batch into the store, all or nothing.
    Flush,
    /// Stop: the run is complete, with `total` records stored.
    Finish { total: u64 },
    /// Stop: the run has failed.
    Halt(Fault),
}

/// The outcome of one transition.
#[derive(Clone, Debug, PartialEq, Eq)]
pub struct Step {
    /// What to do next.
    pub action: Action,
    /// The number of records stored so far, where this transition completed
    /// a flush.
    pub progress: Option<u64>,
}

/// The state of a run.
pub struct PipelineState {
    pub capacity: usize,
    pub phase: Phase,
    pub resume_point: u64,
    /// The block of the last transaction accepted; the resume point before
    /// the first.
    pub last_block: u64,
    /// The transaction being decoded.
    pub pending: Option<Transaction>,
    /// The decoded method call of the pending transaction.
    pub input: Option<serde_json::Value>,
    /// The records enriched and not yet stored.
    pub buffer: Seq<RRDecodedTransaction>,
    /// The number of records stored.
    pub flushed: u64,
}

impl PipelineState {
    /// A run that has not started.
    pub open spec fn init(capacity: usize) -> PipelineState {
        PipelineState {
            capacity,
            phase: Phase::Resuming,
            resume_point: 0,
            last_block: 0,
            pending: None,
            input: None,
            buffer: Seq::empty(),
            flushed: 0,
        }
    }

    /// Whether every buffered record is complete, lies above the resume
    /// point and follows the one before it.
    pub open spec fn buffer_ordered(self) -> bool {
        &&& forall|i: int|
            0 <= i < self.buffer.len() ==> {
                &&& (#[trigger] self.buffer[i]).paired()
                &&& self.resume_point < self.buffer[i].block_number <= self.last_block
            }
        &&& forall|i: int, j: int|
            0 <= i <= j < self.buffer.len() ==> (#[trigger] self.buffer[i]).block_number <= (
            #[trigger] self.buffer[j]).block_number
    }

    /// Whether the buffer's length and the pending data fit the phase.
    pub open spec fn phase_fits(self) -> bool {
        match self.phase {
            Phase::Resuming => self.buffer.len() == 0 && self.pending is None && self.input is None
                && self.flushed == 0,
            Phase::Streaming => self.buffer.len() < self.capacity && self.pending is None
                && self.input is None,
            Phase::DecodingMethod => self.buffer.len() < self.capacity && self.pending is Some
                && self.input is None,
            Phase::DecodingReceipt => self.buffer.len() < self.capacity && self.pending is Some
                && self.input is Some,
            Phase::Flushing => self.buffer.len() == self.capacity && self.pending is None
                && self.input is None,
            Phase::Draining => 0 < self.buffer.len() < self.capacity && self.pending is None
                && self.input is None,
            Phase::Done => self.buffer.len() == 0 && self.pending is None && self.input is None,
            Phase::Halted(_) => self.buffer.len() <= self.capacity && self.pending is None
                && self.input is None,
        }
    }

    /// The states that a run can be in.
    pub open spec fn wf(self) -> bool {
        &&& self.capacity > 0
        &&& self.resume_point <= self.last_block
        &&& self.flushed + self.buffer.len() + (if self.pending is Some { 1int } else { 0 })
            <= u64::MAX
        &&& (self.pending matches Some(raw) ==> self.resume_point < raw.block
            && raw.block == self.last_block)
        &&& self.phase_fits()
        &&& self.buffer_ordered()
    }

    /// Whether the run takes `raw` as the cursor's next item: its block lies
    /// above the resume point and not below the block before it.
    pub open spec fn accepts(self, raw: Transaction) -> bool {
        self.resume_point < raw.block && self.last_block <= raw.block
    }

    /// The run stopped by `fault`: what is buffered stays, what is pending is
    /// dropped.
    pub open spec fn halted(self, fault: Fault) -> (PipelineState, Step) {
        (
            PipelineState { phase: Phase::Halted(fault), pending: None, input: None, ..self },
            Step { action: Action::Halt(fault), progress: None },
        )
    }

    /// The run after the store took the batch, waiting for `phase`.
    pub open spec fn stored(self, phase: Phase) -> PipelineState {
        PipelineState {
            phase,
            buffer: Seq::empty(),
            flushed: (self.flushed + self.buffer.len()) as u64,
            ..self
        }
    }

    pub open spec fn on_resuming(self, event: Event) -> (PipelineState, Step) {
        match event {
            Event::ResumePoint(block) => (
                PipelineState {
                    phase: Phase::Streaming,
                    resume_point: block,
                    last_block: block,
                    ..self
                },
                Step { action: Action::OpenCursor { after: block }, progress: None },
            ),
            Event::StoreReadFailed => self.halted(Fault::StoreRead),
            _ => self.halted(Fault::Protocol),
        }
    }

    pub open spec fn on_streaming(self, event: Event) -> (PipelineState, Step) {
        match event {
            Event::Next(raw) => if !self.accepts(raw) {
                self.halted(Fault::Sequence)
            } else if self.flushed + self.buffer.len() >= u64::MAX {
                self.halted(Fault::Count)
            } else {
                (
                    PipelineState {
                        phase: Phase::DecodingMethod,
                        last_block: raw.block as u64,
                        pending: Some(raw),
                        ..self
                    },
                    Step { action: Action::DecodeMethod { hash: raw.hash }, progress: None },
                )
            },
            Event::Exhausted => if self.buffer.len() == 0 {
                (
                    PipelineState { phase: Phase::Done, ..self },
                    Step { action: Action::Finish { total: self.flushed }, progress: None },
                )
            } else {
                (
                    PipelineState { phase: Phase::Draining, ..self },
                    Step { action: Action::Flush, progress: None },
                )
            },
            Event::StoreReadFailed => self.halted(Fault::StoreRead),
            _ => self.halted(Fault::Protocol),
        }
    }

    pub open spec fn on_decoding_method(self, event: Event) -> (PipelineState, Step) {
        match event {
            Event::MethodDecoded(input) => (
                PipelineState { phase: Phase::DecodingReceipt, input: Some(input), ..self },
                Step {
                    action: Action::DecodeReceipt { hash: self.pending->0.hash },
                    progress: None,
                },
            ),
            Event::DecodeFailed => self.halted(Fault::Decode),
            _ => self.halted(Fault::Protocol),
        }
    }

    pub open spec fn on_decoding_receipt(self, event: Event) -> (PipelineState, Step) {
        match event {
            Event::ReceiptDecoded(output) => {
                let record = RRDecodedTransaction::enriched(
                    self.pending->0,
                    self.input->0,
                    output,
                );
                let buffer = self.buffer.push(record);
                if buffer.len() >= self.capacity {
                    (
                        PipelineState {
                            phase: Phase::Flushing,
                            pending: None,
                            input: None,
                            buffer,
                            ..self
                        },
                        Step { action: Action::Flush, progress: None },
                    )
                } else {
                    (
                        PipelineState {
                            phase: Phase::Streaming,
                            pending: None,
                            input: None,
                            buffer,
                            ..self
                        },
                        Step { action: Action::Pull, progress: None },
                    )
                }
            },
            Event::DecodeFailed => self.halted(Fault::Decode),
            _ => self.halted(Fault::Protocol),
        }
    }

    pub open spec fn on_flushing(self, event: Event) -> (PipelineState, Step) {
        match event {
            Event::Flushed => {
                let next = self.stored(Phase::Streaming);
                (next, Step { action: Action::Pull, progress: Some(next.flushed) })
            },
            Event::FlushFailed => self.halted(Fault::StoreWrite),
            _ => self.halted(Fault::Protocol),
        }
    }

    pub open spec fn on_draining(self, event: Event) -> (PipelineState, Step) {
        match event {
            Event::Flushed => {
                let next = self.stored(Phase::Done);
                (
                    next,
                    Step {
                        action: Action::Finish { total: next.flushed },
                        progress: Some(next.flushed),
                    },
                )
            },
            Event::FlushFailed => self.halted(Fault::StoreWrite),
            _ => self.halted(Fault::Protocol),
        }
    }

    /// The transition: the state after `event` and what the run asks next.
    pub open spec fn step(self, event: Event) -> (PipelineState, Step) {
        match self.phase {
            Phase::Resuming => self.on_resuming(event),
            Phase::Streaming => self.on_streaming(event),
            Phase::DecodingMethod => self.on_decoding_method(event),
            Phase::DecodingReceipt => self.on_decoding_receipt(event),
            Phase::Flushing => self.on_flushing(event),
            Phase::Draining => self.on_draining(event),
            Phase::Done => (
                self,
                Step { action: Action::Finish { total: self.flushed }, progress: None },
            ),
            Phase::Halted(fault) => (self, Step { action: Action::Halt(fault), progress: None }),
        }
    }
}

/// A run of the enrichment pipeline.
pub struct Pipeline {
    capacity: usize,
    phase: Phase,
    resume_point: u64,
    last_block: u64,
    pending: Option<Transaction>,
    input: Option<serde_json::Value>,
    buffer: Vec<RRDecodedTransaction>,
    flushed: u64,
}

impl View for Pipeline {
    type V = PipelineState;

    closed spec fn view(&self) -> PipelineState {
        PipelineState {
            capacity: self.capacity,
            phase: self.phase,
            resume_point: self.resume_point,
            last_block: self.last_block,
            pending: self.pending,
            input: self.input,
            buffer: self.buffer@,
            flushed: self.flushed,
        }
    }
}

impl Pipeline {
    #[verifier::type_invariant]
    spec fn inv(self) -> bool {
        self@.wf()
    }

    /// A run with a buffer of [`DEFAULT_CAPACITY`] records.
    pub fn new() -> (run: Pipeline)
        ensures
            run@ == PipelineState::init(DEFAULT_CAPACITY),
            run@.wf(),
    {
        Pipeline {
            capacity: DEFAULT_CAPACITY,
            phase: Phase::Resuming,
            resume_point: 0,
            last_block: 0,
            pending: None,
            input: None,
            buffer: Vec::new(),
            flushed: 0,
        }
    }

    /// A run with a buffer of `capacity` records; none where `capacity` is 0.
    pub fn with_capacity(capacity: usize) -> (run: Option<Pipeline>)
        ensures
            capacity == 0 ==> run is None,
            capacity > 0 ==> run is Some && run->0@ == PipelineState::init(capacity) && run->0@.wf(),
    {
        if capacity == 0 {
            None
        } else {
            Some(
                Pipeline {
                    capacity,
                    phase: Phase::Resuming,
                    resume_point: 0,
                    last_block: 0,
                    pending: None,
                    input: None,
                    buffer: Vec::new(),
                    flushed: 0,
                },
            )
        }
    }

    /// What the run is waiting for.
    pub fn phase(&self) -> (phase: Phase)
        ensures
            phase == self@.phase,
    {
        self.phase
    }

    /// The number of records at which the buffer is flushed.
    pub fn capacity(&self) -> (capacity: usize)
        ensures
            capacity == self@.capacity,
            capacity > 0,
    {
        proof {
            use_type_invariant(self);
        }
        self.capacity
    }

    /// The block after which this run reads; 0 until the store has answered.
    pub fn resume_point(&self) -> (block: u64)
        ensures
            block == self@.resume_point,
    {
        self.resume_point
    }

    /// The number of records stored so far.
    pub fn flushed(&self) -> (total: u64)
        ensures
            total == self@.flushed,
    {
        self.flushed
    }

    /// The records enriched and not yet stored: the batch to insert when the
    /// run asks for a flush, and what a failed run leaves behind.
    pub fn batch(&self) -> (batch: &Vec<RRDecodedTransaction>)
        ensures
            batch@ == self@.buffer,
            self@.wf(),
    {
        proof {
            use_type_invariant(self);
        }
        &self.buffer
    }

    /// Whether the run has ended, in success or in failure.
    pub fn is_over(&self) -> (over: bool)
        ensures
            over == (self@.phase is Done || self@.phase is Halted),
    {
        match self.phase {
            Phase::Done => true,
            Phase::Halted(_) => true,
            _ => false,
        }
    }

    fn halt(self, fault: Fault) -> (next: (Pipeline, Step))
        ensures
            (next.0@, next.1) == self@.halted(fault),
    {
        proof {
            use_type_invariant(&self);
        }
        let Pipeline { capacity, phase: _, resume_point, last_block, pending: _, input: _, buffer, flushed } =
            self;
        (
            Pipeline {
                capacity,
                phase: Phase::Halted(fault),
                resume_point,
                last_block,
                pending: None,
                input: None,
                buffer,
                flushed,
            },
            Step { action: Action::Halt(fault), progress: None },
        )
    }

    /// Takes `event` and returns the run after it with what it asks next.
    pub fn step(self, event: Event) -> (next: (Pipeline, Step))
        ensures
            (next.0@, next.1) == self@.step(event),
            self@.wf(),
            next.0@.wf(),
    {
        proof {
            use_type_invariant(&self);
        }
        match self.phase {
            Phase::Resuming => self.resuming(event),
            Phase::Streaming => self.streaming(event),
            Phase::DecodingMethod => self.decoding_method(event),
            Phase::DecodingReceipt => self.decoding_receipt(event),
            Phase::Flushing => self.flushing(event, Phase::Streaming),
            Phase::Draining => self.flushing(event, Phase::Done),
            Phase::Done => {
                let total = self.flushed;
                (self, Step { action: Action::Finish { total }, progress: None })
            },
            Phase::Halted(fault) => (self, Step { action: Action::Halt(fault), progress: None }),
        }
    }

    fn resuming(self, event: Event) -> (next: (Pipeline, Step))
        requires
            self@.phase is Resuming,
        ensures
            (next.0@, next.1) == self@.on_resuming(event),
            next.0@.wf(),
    {
        proof {
            use_type_invariant(&self);
        }
        match event {
            Event::ResumePoint(block) => {
                let Pipeline { capacity, phase: _, resume_point: _, last_block: _, pending, input, buffer, flushed } =
                    self;
                (
                    Pipeline {
                        capacity,
                        phase: Phase::Streaming,
                        resume_point: block,
                        last_block: block,
                        pending,
                        input,
                        buffer,
                        flushed,
                    },
                    Step { action: Action::OpenCursor { after: block }, progress: None },
                )
            },
            Event::StoreReadFailed => self.halt(Fault::StoreRead),
            _ => self.halt(Fault::Protocol),
        }
    }

    fn streaming(self, event: Event) -> (next: (Pipeline, Step))
        requires
            self@.phase is Streaming,
        ensures
            (next.0@, next.1) == self@.on_streaming(event),
            next.0@.wf(),
    {
        proof {
            use_type_invariant(&self);
        }
        match event {
            Event::Next(raw) => {
                let block = raw.block as u64;
                if !(self.resume_point < block && self.last_block <= block) {
                    self.halt(Fault::Sequence)
                } else if self.flushed >= u64::MAX - self.buffer.len() as u64 {
                    self.halt(Fault::Count)
                } else {
                    let Pipeline { capacity, phase: _, resume_point, last_block: _, pending: _, input, buffer, flushed } =
                        self;
                    let hash = raw.hash.clone();
                    (
                        Pipeline {
                            capacity,
                            phase: Phase::DecodingMethod,
                            resume_point,
                            last_block: block,
                            pending: Some(raw),
                            input,
                            buffer,
                            flushed,
                        },
                        Step { action: Action::DecodeMethod { hash }, progress: None },
                    )
                }
            },
            Event::Exhausted => {
                let Pipeline { capacity, phase: _, resume_point, last_block, pending, input, buffer, flushed } =
                    self;
                if buffer.len() == 0 {
                    (
                        Pipeline {
                            capacity,
                            phase: Phase::Done,
                            resume_point,
                            last_block,
                            pending,
                            input,
                            buffer,
                            flushed,
                        },
                        Step { action: Action::Finish { total: flushed }, progress: None },
                    )
                } else {
                    (
                        Pipeline {
                            capacity,
                            phase: Phase::Draining,
                            resume_point,
                            last_block,
                            pending,
                            input,
                            buffer,
                            flushed,
                        },
                        Step { action: Action::Flush, progress: None },
                    )
                }
            },
            Event::StoreReadFailed => self.halt(Fault::StoreRead),
            _ => self.halt(Fault::Protocol),
        }
    }

    fn decoding_method(self, event: Event) -> (next: (Pipeline, Step))
        requires
            self@.phase is DecodingMethod,
        ensures
            (next.0@, next.1) == self@.on_decoding_method(event),
            next.0@.wf(),
    {
        proof {
            use_type_invariant(&self);
        }
        match event {
            Event::MethodDecoded(decoded) => {
                let Pipeline { capacity, phase: _, resume_point, last_block, pending, input: _, buffer, flushed } =
                    self;
                match pending {
                    Some(raw) => {
                        let hash = raw.hash.clone();
                        (
                            Pipeline {
                                capacity,
                                phase: Phase::DecodingReceipt,
                                resume_point,
                                last_block,
                                pending: Some(raw),
                                input: Some(decoded),
                                buffer,
                                flushed,
                            },
                            Step { action: Action::DecodeReceipt { hash }, progress: None },
                        )
                    },
                    None => unreached(),
                }
            },
            Event::DecodeFailed => self.halt(Fault::Decode),
            _ => self.halt(Fault::Protocol),
        }
    }

    fn decoding_receipt(self, event: Event) -> (next: (Pipeline, Step))
        requires
            self@.phase is DecodingReceipt,
        ensures
            (next.0@, next.1) == self@.on_decoding_receipt(event),
            next.0@.wf(),
    {
        proof {
            use_type_invariant(&self);
        }
        match event {
            Event::ReceiptDecoded(output) => {
                let Pipeline { capacity, phase: _, resume_point, last_block, pending, input, buffer, flushed } =
                    self;
                match (pending, input) {
                    (Some(raw), Some(decoded)) => {
                        let mut buffer = buffer;
                        let record = RRDecodedTransaction::enrich(raw, decoded, output);
                        buffer.push(record);
                        let phase = if buffer.len() >= capacity {
                            Phase::Flushing
                        } else {
                            Phase::Streaming
                        };
                        let action = if buffer.len() >= capacity {
                            Action::Flush
                        } else {
                            Action::Pull
                        };
                        (
                            Pipeline {
                                capacity,
                                phase,
                                resume_point,
                                last_block,
                                pending: None,
                                input: None,
                                buffer,
                                flushed,
                            },
                            Step { action, progress: None },
                        )
                    },
                    _ => unreached(),
                }
            },
            Event::DecodeFailed => self.halt(Fault::Decode),
            _ => self.halt(Fault::Protocol),
        }
    }

    fn flushing(self, event: Event, then: Phase) -> (next: (Pipeline, Step))
        requires
            self@.phase is Flushing && then is Streaming || self@.phase is Draining && then is Done,
        ensures
            self@.phase is Flushing ==> (next.0@, next.1) == self@.on_flushing(event),
            self@.phase is Draining ==> (next.0@, next.1) == self@.on_draining(event),
            next.0@.wf(),
    {
        proof {
            use_type_invariant(&self);
        }
        match event {
            Event::Flushed => {
                let Pipeline { capacity, phase, resume_point, last_block, pending, input, buffer, flushed } =
                    self;
                let mut buffer = buffer;
                let total = flushed + buffer.len() as u64;
                buffer.clear();
                let action = match phase {
                    Phase::Flushing => Action::Pull,
                    _ => Action::Finish { total },
                };
                (
                    Pipeline {
                        capacity,
                        phase: then,
                        resume_point,
                        last_block,
                        pending,
                        input,
                        buffer,
                        flushed: total,
                    },
                    Step { action, progress: Some(total) },
                )
            },
            Event::FlushFailed => self.halt(Fault::StoreWrite),
            _ => self.halt(Fault::Protocol),
        }
    }
}

} // verus!
