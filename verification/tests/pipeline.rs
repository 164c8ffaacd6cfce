use ronin_wally::mongodb::Transaction;
use ronin_wally::pipeline::{Action, Event, Fault, Phase, Pipeline, Step, DEFAULT_CAPACITY};
use serde_json::Value;

fn raw(block: u32) -> Transaction {
    Transaction {
        from: format!("0xfrom{}", block),
        to: format!("0xto{}", block),
        hash: format!("0xhash{}", block),
        block,
        created_at: None,
    }
}

fn method_of(block: u32) -> Value {
    Value::String(format!("method{}", block))
}

fn receipt_of(block: u32) -> Value {
    Value::String(format!("receipt{}", block))
}

fn started(capacity: usize, resume_point: u64) -> Pipeline {
    let run = Pipeline::with_capacity(capacity).unwrap();
    let (run, step) = run.step(Event::ResumePoint(resume_point));
    assert_eq!(step, Step { action: Action::OpenCursor { after: resume_point }, progress: None });
    run
}

/// Feeds one transaction through both decoders and returns the step that
/// follows the receipt.
fn enrich(run: Pipeline, block: u32) -> (Pipeline, Step) {
    let (run, step) = run.step(Event::Next(raw(block)));
    assert_eq!(
        step,
        Step { action: Action::DecodeMethod { hash: format!("0xhash{}", block) }, progress: None }
    );
    assert_eq!(run.phase(), Phase::DecodingMethod);
    let (run, step) = run.step(Event::MethodDecoded(method_of(block)));
    assert_eq!(
        step,
        Step { action: Action::DecodeReceipt { hash: format!("0xhash{}", block) }, progress: None }
    );
    assert_eq!(run.phase(), Phase::DecodingReceipt);
    run.step(Event::ReceiptDecoded(receipt_of(block)))
}

fn blocks_of(run: &Pipeline) -> Vec<u64> {
    run.batch().iter().map(|record| record.block_number).collect()
}

#[test]
fn new_run_waits_for_the_resume_point() {
    let run = Pipeline::new();
    assert_eq!(run.phase(), Phase::Resuming);
    assert_eq!(run.capacity(), 5000);
    assert_eq!(DEFAULT_CAPACITY, 5000);
    assert_eq!(run.resume_point(), 0);
    assert_eq!(run.flushed(), 0);
    assert!(run.batch().is_empty());
    assert!(!run.is_over());
}

#[test]
fn capacity_zero_is_refused() {
    assert!(Pipeline::with_capacity(0).is_none());
    assert_eq!(Pipeline::with_capacity(1).unwrap().capacity(), 1);
}

#[test]
fn three_blocks_with_capacity_two_flush_twice() {
    let run = started(2, 100);
    assert_eq!(run.resume_point(), 100);
    assert_eq!(run.phase(), Phase::Streaming);

    let (run, step) = enrich(run, 101);
    assert_eq!(step, Step { action: Action::Pull, progress: None });
    assert_eq!(blocks_of(&run), vec![101]);

    let (run, step) = enrich(run, 102);
    assert_eq!(step, Step { action: Action::Flush, progress: None });
    assert_eq!(run.phase(), Phase::Flushing);
    assert_eq!(blocks_of(&run), vec![101, 102]);

    let (run, step) = run.step(Event::Flushed);
    assert_eq!(step, Step { action: Action::Pull, progress: Some(2) });
    assert_eq!(run.flushed(), 2);
    assert!(run.batch().is_empty());

    let (run, step) = enrich(run, 103);
    assert_eq!(step, Step { action: Action::Pull, progress: None });

    let (run, step) = run.step(Event::Exhausted);
    assert_eq!(step, Step { action: Action::Flush, progress: None });
    assert_eq!(run.phase(), Phase::Draining);
    assert_eq!(blocks_of(&run), vec![103]);

    let (run, step) = run.step(Event::Flushed);
    assert_eq!(step, Step { action: Action::Finish { total: 3 }, progress: Some(3) });
    assert_eq!(run.phase(), Phase::Done);
    assert_eq!(run.flushed(), 3);
    assert!(run.batch().is_empty());
    assert!(run.is_over());
}

#[test]
fn enriched_record_carries_the_raw_fields_and_both_payloads() {
    let run = started(10, 7);
    let (run, _) = enrich(run, 8);
    let record = &run.batch()[0];
    assert_eq!(record.from, "0xfrom8");
    assert_eq!(record.to, "0xto8");
    assert_eq!(record.hash, "0xhash8");
    assert_eq!(record.block_number, 8);
    assert_eq!(record.input, Some(method_of(8)));
    assert_eq!(record.output, Some(receipt_of(8)));
}

#[test]
fn block_at_the_resume_point_halts_the_run() {
    let run = started(2, 100);
    let (run, step) = run.step(Event::Next(raw(100)));
    assert_eq!(step, Step { action: Action::Halt(Fault::Sequence), progress: None });
    assert_eq!(run.phase(), Phase::Halted(Fault::Sequence));
    assert!(run.batch().is_empty());
}

#[test]
fn block_below_the_resume_point_halts_the_run() {
    let run = started(2, 100);
    let (run, step) = run.step(Event::Next(raw(99)));
    assert_eq!(step.action, Action::Halt(Fault::Sequence));
    assert!(run.is_over());
}

#[test]
fn first_block_above_the_resume_point_is_accepted() {
    let run = started(2, 100);
    let (run, step) = run.step(Event::Next(raw(101)));
    assert_eq!(step.action, Action::DecodeMethod { hash: "0xhash101".to_string() });
    assert_eq!(run.phase(), Phase::DecodingMethod);
}

#[test]
fn resume_point_zero_accepts_block_one_and_refuses_block_zero() {
    let (_, step) = started(2, 0).step(Event::Next(raw(1)));
    assert_eq!(step.action, Action::DecodeMethod { hash: "0xhash1".to_string() });
    let (_, step) = started(2, 0).step(Event::Next(raw(0)));
    assert_eq!(step.action, Action::Halt(Fault::Sequence));
}

#[test]
fn resume_point_beyond_every_block_refuses_all() {
    let (_, step) = started(2, u64::MAX).step(Event::Next(raw(u32::MAX)));
    assert_eq!(step.action, Action::Halt(Fault::Sequence));
}

#[test]
fn equal_blocks_keep_the_order_of_the_cursor() {
    let run = started(10, 5);
    let (run, _) = enrich(run, 6);
    let (run, step) = enrich(run, 6);
    assert_eq!(step.action, Action::Pull);
    let (run, _) = enrich(run, 9);
    assert_eq!(blocks_of(&run), vec![6, 6, 9]);
}

#[test]
fn descending_block_halts_and_keeps_the_buffer() {
    let run = started(10, 5);
    let (run, _) = enrich(run, 8);
    let (run, step) = run.step(Event::Next(raw(7)));
    assert_eq!(step.action, Action::Halt(Fault::Sequence));
    assert_eq!(blocks_of(&run), vec![8]);
    assert_eq!(run.flushed(), 0);
}

#[test]
fn five_transactions_with_capacity_two_make_batches_of_two_two_one() {
    let mut run = started(2, 0);
    let mut sizes = Vec::new();
    let mut reported = Vec::new();
    for block in 1..=5u32 {
        let (next, step) = enrich(run, block);
        run = next;
        if step.action == Action::Flush {
            sizes.push(run.batch().len());
            let (next, step) = run.step(Event::Flushed);
            run = next;
            reported.push(step.progress.unwrap());
            assert_eq!(step.action, Action::Pull);
        } else {
            assert_eq!(step.action, Action::Pull);
        }
    }
    let (run, step) = run.step(Event::Exhausted);
    assert_eq!(step.action, Action::Flush);
    sizes.push(run.batch().len());
    let (run, step) = run.step(Event::Flushed);
    reported.push(step.progress.unwrap());
    assert_eq!(step.action, Action::Finish { total: 5 });
    assert_eq!(sizes, vec![2, 2, 1]);
    assert_eq!(reported, vec![2, 4, 5]);
    assert_eq!(run.flushed(), 5);
}

#[test]
fn four_transactions_with_capacity_two_need_no_last_flush() {
    let mut run = started(2, 0);
    let mut flushes = 0;
    for block in 1..=4u32 {
        let (next, step) = enrich(run, block);
        run = next;
        if step.action == Action::Flush {
            assert_eq!(run.batch().len(), 2);
            flushes += 1;
            run = run.step(Event::Flushed).0;
        }
    }
    let (run, step) = run.step(Event::Exhausted);
    assert_eq!(step, Step { action: Action::Finish { total: 4 }, progress: None });
    assert_eq!(flushes, 2);
    assert_eq!(run.phase(), Phase::Done);
}

#[test]
fn capacity_one_flushes_every_record() {
    let run = started(1, 0);
    let (run, step) = enrich(run, 1);
    assert_eq!(step.action, Action::Flush);
    let (run, step) = run.step(Event::Flushed);
    assert_eq!(step, Step { action: Action::Pull, progress: Some(1) });
    let (run, step) = enrich(run, 2);
    assert_eq!(step.action, Action::Flush);
    assert_eq!(blocks_of(&run), vec![2]);
}

#[test]
fn empty_stream_finishes_with_nothing_stored() {
    let run = started(2, 100);
    let (run, step) = run.step(Event::Exhausted);
    assert_eq!(step, Step { action: Action::Finish { total: 0 }, progress: None });
    assert_eq!(run.phase(), Phase::Done);
}

#[test]
fn failed_flush_halts_and_keeps_the_batch() {
    let run = started(2, 100);
    let (run, _) = enrich(run, 101);
    let (run, step) = enrich(run, 102);
    assert_eq!(step.action, Action::Flush);
    let (run, step) = run.step(Event::FlushFailed);
    assert_eq!(step, Step { action: Action::Halt(Fault::StoreWrite), progress: None });
    assert_eq!(run.phase(), Phase::Halted(Fault::StoreWrite));
    assert_eq!(blocks_of(&run), vec![101, 102]);
    assert_eq!(run.flushed(), 0);
}

#[test]
fn failed_second_flush_leaves_the_first_batch_counted() {
    let run = started(1, 100);
    let (run, _) = enrich(run, 101);
    let (run, step) = run.step(Event::Flushed);
    assert_eq!(step.progress, Some(1));
    let (run, _) = enrich(run, 102);
    let (run, step) = run.step(Event::FlushFailed);
    assert_eq!(step, Step { action: Action::Halt(Fault::StoreWrite), progress: None });
    assert_eq!(run.flushed(), 1);
    assert_eq!(blocks_of(&run), vec![102]);
}

#[test]
fn failed_last_flush_halts_and_keeps_the_batch() {
    let run = started(5, 100);
    let (run, _) = enrich(run, 101);
    let (run, step) = run.step(Event::Exhausted);
    assert_eq!(step.action, Action::Flush);
    let (run, step) = run.step(Event::FlushFailed);
    assert_eq!(step.action, Action::Halt(Fault::StoreWrite));
    assert_eq!(blocks_of(&run), vec![101]);
    assert_eq!(run.flushed(), 0);
}

#[test]
fn every_buffered_record_holds_both_payloads() {
    let mut run = started(10, 0);
    for block in 1..=4u32 {
        run = enrich(run, block).0;
    }
    assert_eq!(run.batch().len(), 4);
    for record in run.batch() {
        assert!(record.input.is_some());
        assert!(record.output.is_some());
    }
}

#[test]
fn failed_method_decode_halts_before_the_record_is_built() {
    let run = started(5, 100);
    let (run, _) = enrich(run, 101);
    let (run, _) = run.step(Event::Next(raw(102)));
    let (run, step) = run.step(Event::DecodeFailed);
    assert_eq!(step, Step { action: Action::Halt(Fault::Decode), progress: None });
    assert_eq!(run.phase(), Phase::Halted(Fault::Decode));
    assert_eq!(blocks_of(&run), vec![101]);
    assert_eq!(run.flushed(), 0);
}

#[test]
fn failed_receipt_decode_builds_no_half_record() {
    let run = started(5, 100);
    let (run, _) = run.step(Event::Next(raw(101)));
    let (run, _) = run.step(Event::MethodDecoded(method_of(101)));
    let (run, step) = run.step(Event::DecodeFailed);
    assert_eq!(step.action, Action::Halt(Fault::Decode));
    assert!(run.batch().is_empty());
}

#[test]
fn failed_resume_query_halts_the_run() {
    let run = Pipeline::with_capacity(2).unwrap();
    let (run, step) = run.step(Event::StoreReadFailed);
    assert_eq!(step, Step { action: Action::Halt(Fault::StoreRead), progress: None });
    assert_eq!(run.phase(), Phase::Halted(Fault::StoreRead));
}

#[test]
fn failed_cursor_halts_and_keeps_the_buffer() {
    let run = started(5, 100);
    let (run, _) = enrich(run, 101);
    let (run, step) = run.step(Event::StoreReadFailed);
    assert_eq!(step.action, Action::Halt(Fault::StoreRead));
    assert_eq!(blocks_of(&run), vec![101]);
}

#[test]
fn unexpected_event_halts_the_run() {
    let (run, step) = Pipeline::with_capacity(2).unwrap().step(Event::Flushed);
    assert_eq!(step.action, Action::Halt(Fault::Protocol));
    assert_eq!(run.phase(), Phase::Halted(Fault::Protocol));

    let (_, step) = started(2, 0).step(Event::ReceiptDecoded(Value::Null));
    assert_eq!(step.action, Action::Halt(Fault::Protocol));

    let (run, _) = started(2, 0).step(Event::Next(raw(1)));
    let (_, step) = run.step(Event::ReceiptDecoded(Value::Null));
    assert_eq!(step.action, Action::Halt(Fault::Protocol));

    let (run, _) = enrich(started(1, 0), 1);
    let (run, step) = run.step(Event::Next(raw(2)));
    assert_eq!(step.action, Action::Halt(Fault::Protocol));
    assert_eq!(blocks_of(&run), vec![1]);
}

#[test]
fn second_resume_point_is_not_taken() {
    let run = started(2, 100);
    let (run, step) = run.step(Event::ResumePoint(5));
    assert_eq!(step.action, Action::Halt(Fault::Protocol));
    assert_eq!(run.resume_point(), 100);
}

#[test]
fn finished_run_takes_no_further_event() {
    let (run, _) = started(2, 0).step(Event::Exhausted);
    let (run, step) = run.step(Event::Next(raw(5)));
    assert_eq!(step, Step { action: Action::Finish { total: 0 }, progress: None });
    assert_eq!(run.phase(), Phase::Done);
    assert!(run.batch().is_empty());
}

#[test]
fn halted_run_takes_no_further_event() {
    let run = started(1, 0);
    let (run, _) = enrich(run, 1);
    let (run, _) = run.step(Event::FlushFailed);
    let (run, step) = run.step(Event::Flushed);
    assert_eq!(step, Step { action: Action::Halt(Fault::StoreWrite), progress: None });
    assert_eq!(run.flushed(), 0);
    assert_eq!(blocks_of(&run), vec![1]);
}
