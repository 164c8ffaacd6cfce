//! What a run has done: the transactions it accepted, the records it
//! enriched, the batches it handed to the store and the records the store
//! acknowledged, with the laws that hold of every run.

use vstd::prelude::*;
use vstd::arithmetic::div_mod::lemma_fundamental_div_mod_converse;
use crate::mongodb::Transaction;
use crate::pipeline::{Action, Event, Fault, Phase, PipelineState};
use crate::roninrest::RRDecodedTransaction;

verus! {

/// A run together with the record of what it has done so far.
pub struct History {
    /// The state of the run.
    pub state: PipelineState,
    /// The raw transactions taken from the cursor, in the order in which it
    /// yielded them.
    pub accepted: Seq<Transaction>,
    /// The records built, in the order in which they were built.
    pub enriched: Seq<RRDecodedTransaction>,
    /// The batches handed to the store, in order.
    pub submitted: Seq<Seq<RRDecodedTransaction>>,
    /// The records that the store acknowledged.
    pub durable: Seq<RRDecodedTransaction>,
    /// The progress counts reported.
    pub reported: Seq<u64>,
}

/// Whether `record` is `raw` with both payloads added.
pub open spec fn enriches(record: RRDecodedTransaction, raw: Transaction) -> bool {
    &&& record.from == raw.from
    &&& record.to == raw.to
    &&& record.hash == raw.hash
    &&& record.block_number == raw.block
    &&& record.paired()
}

/// The highest block among `records`; 0 where there is none.
pub open spec fn highest_block(records: Seq<RRDecodedTransaction>) -> u64
    decreases records.len(),
{
    if records.len() == 0 {
        0
    } else {
        let rest = highest_block(records.drop_last());
        if records.last().block_number > rest {
            records.last().block_number
        } else {
            rest
        }
    }
}

impl History {
    /// The history of a run that has not started.
    pub open spec fn start(capacity: usize) -> History {
        History {
            state: PipelineState::init(capacity),
            accepted: Seq::empty(),
            enriched: Seq::empty(),
            submitted: Seq::empty(),
            durable: Seq::empty(),
            reported: Seq::empty(),
        }
    }

    /// The history after one more event: a transaction is accepted when the
    /// run asks for its method call, a record is enriched when it enters the
    /// buffer, a batch is submitted when the run asks for a flush, and it is
    /// durable when the run reports progress.
    pub open spec fn after(self, event: Event) -> History {
        let (state, step) = self.state.step(event);
        History {
            state,
            accepted: match (step.action, event) {
                (Action::DecodeMethod { .. }, Event::Next(raw)) => self.accepted.push(raw),
                _ => self.accepted,
            },
            enriched: if state.buffer.len() > self.state.buffer.len() {
                self.enriched.push(state.buffer.last())
            } else {
                self.enriched
            },
            submitted: if step.action is Flush {
                self.submitted.push(state.buffer)
            } else {
                self.submitted
            },
            durable: if step.progress is Some {
                self.durable + self.state.buffer
            } else {
                self.durable
            },
            reported: match step.progress {
                Some(total) => self.reported.push(total),
                None => self.reported,
            },
        }
    }

    /// The history of a run of the given capacity over `events`.
    pub open spec fn run(capacity: usize, events: Seq<Event>) -> History
        decreases events.len(),
    {
        if events.len() == 0 {
            Self::start(capacity)
        } else {
            Self::run(capacity, events.drop_last()).after(events.last())
        }
    }

    /// Whether a batch may still follow the last one submitted.
    pub open spec fn may_grow(self) -> bool {
        !(self.state.phase is Draining || self.state.phase is Done || self.state.phase is Halted)
    }

    /// Every batch is full but, once the stream has ended, the last.
    pub open spec fn sizes_fit(self) -> bool {
        let c = self.state.capacity as int;
        let k = self.submitted.len() as int;
        &&& forall|i: int| 0 <= i < k ==> 0 < (#[trigger] self.submitted[i]).len() <= c
        &&& forall|i: int| 0 <= i < k - 1 ==> (#[trigger] self.submitted[i]).len() == c
        &&& (k > 0 && self.may_grow() ==> self.submitted[k - 1].len() == c)
        &&& self.submitted.flatten().len() == if k == 0 {
            0
        } else {
            (k - 1) * c + self.submitted[k - 1].len()
        }
    }

    /// The batches submitted are the durable records, followed by the
    /// buffer while the store has not answered for it.
    pub open spec fn flights_fit(self) -> bool {
        let flat = self.submitted.flatten();
        match self.state.phase {
            Phase::Flushing | Phase::Draining => {
                &&& flat == self.durable + self.state.buffer
                &&& self.submitted.len() > 0
                &&& self.submitted.last() == self.state.buffer
            },
            Phase::Halted(_) => flat == self.durable || flat == self.durable + self.state.buffer,
            _ => flat == self.durable,
        }
    }

    /// The records are the accepted transactions, enriched in order; the
    /// durable ones and the buffer make up all of them.
    pub open spec fn lineage_fits(self) -> bool {
        &&& self.durable + self.state.buffer == self.enriched
        &&& self.durable.len() == self.state.flushed
        &&& self.enriched.len() <= self.accepted.len() <= self.enriched.len() + 1
        &&& forall|i: int|
            0 <= i < self.enriched.len() ==> enriches(
                #[trigger] self.enriched[i],
                self.accepted[i],
            )
        &&& forall|i: int|
            0 <= i < self.accepted.len() ==> self.state.resume_point < (
            #[trigger] self.accepted[i]).block <= self.state.last_block
        &&& forall|i: int, j: int|
            0 <= i <= j < self.accepted.len() ==> (#[trigger] self.accepted[i]).block <= (
            #[trigger] self.accepted[j]).block
        &&& match self.state.pending {
            Some(raw) => self.accepted.len() == self.enriched.len() + 1 && self.accepted.last()
                == raw,
            None => self.state.phase is Halted || self.accepted.len() == self.enriched.len(),
        }
    }

    /// The counts reported grow, and the last is the number of durable
    /// records.
    pub open spec fn reports_fit(self) -> bool {
        &&& forall|i: int, j: int|
            0 <= i < j < self.reported.len() ==> #[trigger] self.reported[i]
                < #[trigger] self.reported[j]
        &&& if self.reported.len() == 0 {
            self.state.flushed == 0
        } else {
            self.reported.last() == self.state.flushed
        }
    }

    /// Every record handed to the store is complete and lies above the
    /// resume point.
    pub open spec fn batches_fit(self) -> bool {
        forall|b: int, i: int|
            0 <= b < self.submitted.len() && 0 <= i < self.submitted[b].len() ==> {
                &&& (#[trigger] self.submitted[b][i]).paired()
                &&& self.submitted[b][i].block_number > self.state.resume_point
            }
    }

    /// What holds of every history of a run.
    pub open spec fn inv(self) -> bool {
        &&& self.state.wf()
        &&& self.sizes_fit()
        &&& self.batches_fit()
        &&& self.flights_fit()
        &&& self.lineage_fits()
        &&& self.reports_fit()
    }

    /// A run that has not started satisfies the invariant.
    pub proof fn lemma_start_inv(capacity: usize)
        requires
            capacity > 0,
        ensures
            Self::start(capacity).inv(),
    {
        let h = Self::start(capacity);
        assert(h.submitted.flatten() =~= Seq::empty());
        assert(h.durable + h.state.buffer =~= h.enriched);
    }

    /// One more event keeps the invariant.
    pub proof fn lemma_after_inv(self, event: Event)
        requires
            self.inv(),
        ensures
            self.after(event).inv(),
    {
        self.lemma_after_state(event);
        self.lemma_after_lineage(event);
        self.lemma_after_flights(event);
        self.lemma_after_reports(event);
    }

    /// The state after one more event is one that a run can be in.
    proof fn lemma_after_state(self, event: Event)
        requires
            self.inv(),
        ensures
            self.after(event).state.wf(),
    {
    }

    /// The records after one more event still stem from the accepted
    /// transactions, in order.
    proof fn lemma_after_lineage(self, event: Event)
        requires
            self.inv(),
        ensures
            self.after(event).lineage_fits(),
    {
        let next = self.after(event);
        assert(next.durable + next.state.buffer =~= next.enriched);
    }

    /// The batches after one more event are still full and still made of
    /// the durable records and the buffer in flight.
    proof fn lemma_after_flights(self, event: Event)
        requires
            self.inv(),
        ensures
            self.after(event).flights_fit(),
            self.after(event).sizes_fit(),
    {
        let next = self.after(event);
        let (state, step) = self.state.step(event);
        if step.action is Flush {
            let k = self.submitted.len() as int;
            let c = self.state.capacity as int;
            self.submitted.lemma_flatten_push(state.buffer);
            assert((k - 1) * c + c == k * c) by (nonlinear_arith);
            assert(next.submitted.len() == k + 1);
            assert(next.submitted[k] == state.buffer);
            assert(forall|i: int| 0 <= i < k ==> next.submitted[i] == self.submitted[i]);
        }
    }

    /// The counts reported and the records submitted after one more event
    /// are still as the invariant has them.
    proof fn lemma_after_reports(self, event: Event)
        requires
            self.inv(),
        ensures
            self.after(event).reports_fit(),
            self.after(event).batches_fit(),
    {
    }

    /// The history over one more event is the history so far after that
    /// event: a run is followed step by step.
    pub proof fn lemma_run_push(capacity: usize, events: Seq<Event>, event: Event)
        ensures
            Self::run(capacity, events.push(event)) == Self::run(capacity, events).after(event),
    {
        let extended = events.push(event);
        assert(extended.drop_last() =~= events);
        assert(extended.last() == event);
    }

    /// Every history of a run satisfies the invariant.
    pub proof fn lemma_run_inv(capacity: usize, events: Seq<Event>)
        requires
            capacity > 0,
        ensures
            Self::run(capacity, events).inv(),
        decreases events.len(),
    {
        if events.len() == 0 {
            Self::lemma_start_inv(capacity);
        } else {
            Self::lemma_run_inv(capacity, events.drop_last());
            Self::run(capacity, events.drop_last()).lemma_after_inv(events.last());
        }
    }

    /// The resume point of a run is the store's first answer, and a run
    /// that got no such answer accepts nothing.
    pub proof fn lemma_resume_point_fixed(capacity: usize, events: Seq<Event>)
        requires
            capacity > 0,
            events.len() > 0,
        ensures
            events[0] matches Event::ResumePoint(block) ==> {
                &&& Self::run(capacity, events).state.resume_point == block
                &&& !(Self::run(capacity, events).state.phase is Resuming)
            },
            !(events[0] is ResumePoint) ==> {
                &&& Self::run(capacity, events).state.phase is Halted
                &&& Self::run(capacity, events).accepted.len() == 0
                &&& Self::run(capacity, events).enriched.len() == 0
            },
        decreases events.len(),
    {
        let before = Self::run(capacity, events.drop_last());
        Self::lemma_run_inv(capacity, events.drop_last());
        if events.len() == 1 {
            assert(events.drop_last().len() == 0);
            assert(before == Self::start(capacity));
        } else {
            assert(events.drop_last()[0] == events[0]);
            Self::lemma_resume_point_fixed(capacity, events.drop_last());
        }
    }

    /// Resume correctness: whatever block the store reports as the highest
    /// one enriched, the run accepts and enriches only transactions of
    /// blocks strictly above it.
    pub proof fn law_resume(capacity: usize, events: Seq<Event>, block: u64)
        requires
            capacity > 0,
            events.len() > 0,
            events[0] == Event::ResumePoint(block),
        ensures
            ({
                let h = Self::run(capacity, events);
                &&& h.state.resume_point == block
                &&& forall|i: int| 0 <= i < h.accepted.len() ==> (#[trigger] h.accepted[i]).block > block
                &&& forall|i: int|
                    0 <= i < h.enriched.len() ==> (#[trigger] h.enriched[i]).block_number > block
                &&& forall|b: int, i: int|
                    0 <= b < h.submitted.len() && 0 <= i < h.submitted[b].len() ==> (
                    #[trigger] h.submitted[b][i]).block_number > block
            }),
    {
        let h = Self::run(capacity, events);
        Self::lemma_run_inv(capacity, events);
        Self::lemma_resume_point_fixed(capacity, events);
        assert forall|i: int| 0 <= i < h.enriched.len() implies (#[trigger] h.enriched[i]).block_number
            > block by {
            assert(enriches(h.enriched[i], h.accepted[i]));
        }
    }

    /// Ordering: the records handed to the store, batch after batch, are the
    /// first of the records enriched; those are the accepted transactions
    /// in the order in which the cursor yielded them, and their blocks
    /// never decrease.
    pub proof fn law_order(capacity: usize, events: Seq<Event>)
        requires
            capacity > 0,
        ensures
            ({
                let h = Self::run(capacity, events);
                &&& h.submitted.flatten().is_prefix_of(h.enriched)
                &&& h.enriched.len() <= h.accepted.len()
                &&& forall|i: int|
                    0 <= i < h.enriched.len() ==> enriches(#[trigger] h.enriched[i], h.accepted[i])
                &&& forall|i: int, j: int|
                    0 <= i <= j < h.enriched.len() ==> (#[trigger] h.enriched[i]).block_number <= (
                    #[trigger] h.enriched[j]).block_number
            }),
    {
        let h = Self::run(capacity, events);
        Self::lemma_run_inv(capacity, events);
        let flat = h.submitted.flatten();
        assert(h.durable + h.state.buffer == h.enriched);
        assert(flat =~= h.enriched.subrange(0, flat.len() as int));
        assert forall|i: int, j: int| 0 <= i <= j < h.enriched.len() implies (
        #[trigger] h.enriched[i]).block_number <= (#[trigger] h.enriched[j]).block_number by {
            assert(enriches(h.enriched[i], h.accepted[i]));
            assert(enriches(h.enriched[j], h.accepted[j]));
            assert(h.accepted[i].block <= h.accepted[j].block);
        }
    }

    /// Batch boundary: a run that completes over `n` transactions with
    /// capacity `c` has handed the store the `n` records in `ceil(n / c)`
    /// batches, the first `floor(n / c)` of them of `c` records and, where
    /// `c` does not divide `n`, a last one of `n mod c`.
    pub proof fn law_batch_boundary(capacity: usize, events: Seq<Event>)
        requires
            capacity > 0,
            Self::run(capacity, events).state.phase is Done,
        ensures
            ({
                let h = Self::run(capacity, events);
                let n = h.accepted.len() as int;
                let c = capacity as int;
                &&& h.enriched.len() == n
                &&& h.submitted.flatten() == h.enriched
                &&& h.durable == h.enriched
                &&& h.submitted.len() == (n + c - 1) / c
                &&& forall|i: int| 0 <= i < n / c ==> (#[trigger] h.submitted[i]).len() == c
                &&& (n % c != 0 ==> h.submitted.len() > 0 && h.submitted.last().len() == n % c)
            }),
    {
        let h = Self::run(capacity, events);
        Self::lemma_run_inv(capacity, events);
        Self::lemma_capacity_kept(capacity, events);
        let n = h.accepted.len() as int;
        let c = capacity as int;
        let k = h.submitted.len() as int;
        assert(h.durable + h.state.buffer =~= h.durable);
        if k == 0 {
            lemma_fundamental_div_mod_converse(n + c - 1, c, 0, c - 1);
            lemma_fundamental_div_mod_converse(n, c, 0, 0);
        } else {
            let r = h.submitted[k - 1].len() as int;
            assert((k - 1) * c + c == k * c) by (nonlinear_arith);
            lemma_fundamental_div_mod_converse(n + c - 1, c, k, r - 1);
            if r == c {
                lemma_fundamental_div_mod_converse(n, c, k, 0);
            } else {
                lemma_fundamental_div_mod_converse(n, c, k - 1, r);
            }
        }
    }

    /// The capacity of a run never changes.
    pub proof fn lemma_capacity_kept(capacity: usize, events: Seq<Event>)
        ensures
            Self::run(capacity, events).state.capacity == capacity,
        decreases events.len(),
    {
        if events.len() > 0 {
            Self::lemma_capacity_kept(capacity, events.drop_last());
        }
    }

    /// At least once on write failure: where the store refuses a batch, the
    /// run halts with the batch still in its buffer; the durable records
    /// are those of the batches before it, so the count of stored records,
    /// the progress reported and the block from which a later run resumes
    /// are what they were before the batch was handed over.
    pub proof fn law_failed_flush(capacity: usize, events: Seq<Event>)
        requires
            capacity > 0,
            Self::run(capacity, events).state.phase is Flushing || Self::run(
                capacity,
                events,
            ).state.phase is Draining,
        ensures
            ({
                let before = Self::run(capacity, events);
                let failed = Self::run(capacity, events.push(Event::FlushFailed));
                &&& failed.state.phase == Phase::Halted(Fault::StoreWrite)
                &&& before.submitted.len() > 0
                &&& failed.submitted == before.submitted
                &&& failed.state.buffer == before.submitted.last()
                &&& failed.durable == before.submitted.drop_last().flatten()
                &&& failed.durable == before.durable
                &&& failed.state.flushed == before.state.flushed
                &&& failed.reported == before.reported
                &&& highest_block(failed.durable) == highest_block(before.durable)
            }),
    {
        let before = Self::run(capacity, events);
        Self::lemma_run_push(capacity, events, Event::FlushFailed);
        Self::lemma_run_inv(capacity, events);
        let earlier = before.submitted.drop_last();
        let batch = before.submitted.last();
        assert(before.submitted =~= earlier.push(batch));
        earlier.lemma_flatten_push(batch);
        let flat = before.submitted.flatten();
        assert(earlier.flatten() =~= flat.subrange(0, earlier.flatten().len() as int));
        assert(before.durable =~= flat.subrange(0, before.durable.len() as int));
    }

    /// The highest block of records in ascending order is that of the last.
    proof fn lemma_highest_is_last(records: Seq<RRDecodedTransaction>)
        requires
            forall|i: int, j: int|
                0 <= i <= j < records.len() ==> (#[trigger] records[i]).block_number <= (
                #[trigger] records[j]).block_number,
        ensures
            highest_block(records) == if records.len() == 0 {
                0
            } else {
                records.last().block_number
            },
        decreases records.len(),
    {
        if records.len() > 0 {
            let rest = records.drop_last();
            assert forall|i: int, j: int| 0 <= i <= j < rest.len() implies (
            #[trigger] rest[i]).block_number <= (#[trigger] rest[j]).block_number by {
                assert(rest[i] == records[i]);
                assert(rest[j] == records[j]);
            }
            Self::lemma_highest_is_last(rest);
            if rest.len() > 0 {
                assert(rest.last() == records[records.len() - 2]);
            }
        }
    }

    /// Restart: whatever a run leaves unstored, in its buffer or pending,
    /// lies at or above the highest durable block, from which the next run
    /// resumes; and that block lies above the point from which this run
    /// resumed, unless nothing is durable.
    pub proof fn law_restart(capacity: usize, events: Seq<Event>)
        requires
            capacity > 0,
        ensures
            ({
                let h = Self::run(capacity, events);
                let next_resume = highest_block(h.durable);
                &&& forall|i: int|
                    0 <= i < h.state.buffer.len() ==> (#[trigger] h.state.buffer[i]).block_number
                        >= next_resume
                &&& (h.state.pending matches Some(raw) ==> raw.block >= next_resume)
                &&& (h.durable.len() > 0 ==> next_resume > h.state.resume_point)
                &&& (h.durable.len() == 0 ==> next_resume == 0)
            }),
    {
        let h = Self::run(capacity, events);
        Self::lemma_run_inv(capacity, events);
        Self::law_order(capacity, events);
        let n = h.durable.len() as int;
        assert(h.durable + h.state.buffer == h.enriched);
        assert forall|i: int| 0 <= i < n implies h.durable[i] == h.enriched[i] by {}
        assert forall|i: int, j: int| 0 <= i <= j < n implies (#[trigger] h.durable[i]).block_number
            <= (#[trigger] h.durable[j]).block_number by {
            assert(h.durable[i] == h.enriched[i]);
            assert(h.durable[j] == h.enriched[j]);
        }
        Self::lemma_highest_is_last(h.durable);
        if n > 0 {
            assert(h.durable.last() == h.enriched[n - 1]);
            assert(enriches(h.enriched[n - 1], h.accepted[n - 1]));
            assert forall|i: int| 0 <= i < h.state.buffer.len() implies (
            #[trigger] h.state.buffer[i]).block_number >= highest_block(h.durable) by {
                assert(h.state.buffer[i] == h.enriched[n + i]);
            }
            if h.state.pending is Some {
                assert(h.accepted[n - 1].block <= h.accepted.last().block);
            }
        }
    }

    /// A run that has ended takes no further event: its state and its
    /// history stay as they are.
    pub proof fn law_end_is_final(self, event: Event)
        requires
            self.state.phase is Done || self.state.phase is Halted,
        ensures
            self.after(event) == self,
    {
    }

    /// Decode pairing: every record that a run has buffered, handed to the
    /// store or seen acknowledged holds both of its decoded payloads.
    pub proof fn law_pairing(capacity: usize, events: Seq<Event>)
        requires
            capacity > 0,
        ensures
            ({
                let h = Self::run(capacity, events);
                &&& forall|i: int| 0 <= i < h.enriched.len() ==> (#[trigger] h.enriched[i]).paired()
                &&& forall|i: int| 0 <= i < h.durable.len() ==> (#[trigger] h.durable[i]).paired()
                &&& forall|i: int|
                    0 <= i < h.state.buffer.len() ==> (#[trigger] h.state.buffer[i]).paired()
                &&& forall|b: int, i: int|
                    0 <= b < h.submitted.len() && 0 <= i < h.submitted[b].len() ==> (
                    #[trigger] h.submitted[b][i]).paired()
            }),
    {
        let h = Self::run(capacity, events);
        Self::lemma_run_inv(capacity, events);
        assert(h.durable + h.state.buffer == h.enriched);
        assert forall|i: int| 0 <= i < h.enriched.len() implies (#[trigger] h.enriched[i]).paired() by {
            assert(enriches(h.enriched[i], h.accepted[i]));
        }
        assert forall|i: int| 0 <= i < h.durable.len() implies (#[trigger] h.durable[i]).paired() by {
            assert(h.durable[i] == h.enriched[i]);
        }
    }

    /// Progress: each count reported is higher than the one before, and the
    /// last is the number of records that the store has acknowledged; none
    /// counts a record that is only buffered.
    pub proof fn law_progress(capacity: usize, events: Seq<Event>)
        requires
            capacity > 0,
        ensures
            ({
                let h = Self::run(capacity, events);
                &&& forall|i: int, j: int|
                    0 <= i < j < h.reported.len() ==> #[trigger] h.reported[i]
                        < #[trigger] h.reported[j]
                &&& h.state.flushed == h.durable.len()
                &&& h.reported.len() > 0 ==> h.reported.last() == h.durable.len()
                &&& h.reported.len() == 0 ==> h.durable.len() == 0
                &&& h.durable.len() + h.state.buffer.len() == h.enriched.len()
            }),
    {
        let h = Self::run(capacity, events);
        Self::lemma_run_inv(capacity, events);
        assert(h.durable + h.state.buffer == h.enriched);
    }
}

} // verus!
