use span_pipeline::batch::Processor;
use span_pipeline::span::{OpenSpan, Span};

fn span(name: &str) -> Span {
    OpenSpan::begin(name.to_string(), 1, None).finish(2)
}

#[test]
fn five_spans_at_threshold_five_make_exactly_one_batch_in_order() {
    let mut p = Processor::new(5);
    let mut batches: Vec<Vec<Span>> = Vec::new();
    for i in 0..5u32 {
        if let Some(b) = p.enqueue(span(&format!("s{}", i))) {
            batches.push(b);
        }
    }
    assert_eq!(batches.len(), 1);
    let names: Vec<&str> = batches[0].iter().map(|s| s.name.as_str()).collect();
    assert_eq!(names, vec!["s0", "s1", "s2", "s3", "s4"]);
}

#[test]
fn below_threshold_nothing_exports_until_the_timer_fires() {
    let mut p = Processor::new(5);
    assert!(p.enqueue(span("a")).is_none());
    assert!(p.enqueue(span("b")).is_none());
    assert!(p.enqueue(span("c")).is_none());
    let batch = p.time_elapsed().expect("the timer flushes a partial batch");
    assert_eq!(batch.len(), 3);
    assert_eq!(batch[0].name, "a");
    assert_eq!(batch[2].name, "c");
    // Nothing left and an export is in flight: the next tick is a no-op.
    assert!(p.time_elapsed().is_none());
}

#[test]
fn at_most_one_export_in_flight_under_load() {
    let mut p = Processor::new(2);
    let mut handed_out = 0u32;
    if p.enqueue(span("a")).is_some() {
        handed_out += 1;
    }
    if p.enqueue(span("b")).is_some() {
        handed_out += 1;
    }
    assert_eq!(handed_out, 1);
    // The first export is still in flight: enqueueing far past the
    // threshold hands nothing out, and neither does the timer.
    for i in 0..10u32 {
        assert!(p.enqueue(span(&format!("x{}", i))).is_none());
    }
    assert!(p.time_elapsed().is_none());
    // Completion hands out the next accumulated batch at once.
    let next = p.export_finished(true).expect("a full batch was waiting");
    assert_eq!(next.len(), 10);
    assert_eq!(next[0].name, "x0");
    assert_eq!(next[9].name, "x9");
}

#[test]
fn export_failure_never_reaches_the_producer_and_spares_the_next_batch() {
    let mut p = Processor::new(2);
    assert!(p.enqueue(span("a")).is_none());
    let first = p.enqueue(span("b")).expect("threshold reached");
    assert_eq!(first.len(), 2);
    // The export fails: the batch is dropped by the caller, the processor
    // carries on unchanged.
    assert!(p.export_finished(false).is_none());
    assert!(p.enqueue(span("c")).is_none());
    let second = p.enqueue(span("d")).expect("the next batch is unaffected");
    assert_eq!(second[0].name, "c");
    assert_eq!(second[1].name, "d");
}

#[test]
fn threshold_one_exports_every_span_at_once() {
    let mut p = Processor::new(1);
    let first = p.enqueue(span("a")).expect("a batch of one");
    assert_eq!(first.len(), 1);
    assert_eq!(first[0].name, "a");
    // The next span waits while the first export is in flight.
    assert!(p.enqueue(span("b")).is_none());
    let next = p.export_finished(true).expect("the waiting span");
    assert_eq!(next.len(), 1);
    assert_eq!(next[0].name, "b");
}

#[test]
fn shutdown_with_nothing_buffered_drains_immediately() {
    let mut p = Processor::new(5);
    p.begin_shutdown();
    let rest = p.drain().expect("no export was in flight");
    assert!(rest.is_empty());
    assert!(p.is_drained());
}

#[test]
fn shutdown_drains_everything_enqueued_before_it() {
    let mut p = Processor::new(5);
    assert!(p.enqueue(span("a")).is_none());
    assert!(p.enqueue(span("b")).is_none());
    p.begin_shutdown();
    // Spans completed after shutdown began are rejected.
    assert!(p.enqueue(span("late")).is_none());
    let rest = p.drain().expect("no export was in flight");
    assert_eq!(rest.len(), 2);
    assert_eq!(rest[0].name, "a");
    assert_eq!(rest[1].name, "b");
    assert!(p.is_drained());
}

#[test]
fn drain_waits_for_the_export_in_flight() {
    let mut p = Processor::new(2);
    p.enqueue(span("a"));
    let first = p.enqueue(span("b")).expect("threshold reached");
    assert_eq!(first.len(), 2);
    p.begin_shutdown();
    // An export is still in flight: drain cannot finish yet.
    assert!(p.drain().is_none());
    assert!(!p.is_drained());
    // Once it completes, the drain hands back what is left (nothing here).
    assert!(p.export_finished(true).is_none());
    let rest = p.drain().expect("nothing in flight any more");
    assert!(rest.is_empty());
    assert!(p.is_drained());
}
