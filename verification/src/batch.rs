//! The batch processor.
//!
//! Sealed spans are buffered and exported in batches. The processor here is
//! the decision core of that loop: each method is one transition of the
//! state machine, taking an event (a span arriving, the accumulation timer
//! elapsing, an export completing, shutdown) and handing back the batch to
//! export, if one is due. The caller performs the actual network export and
//! reports its completion; whether that export succeeded or failed never
//! changes the processor's state, so a failed batch is simply dropped and
//! the pipeline continues — best-effort telemetry, bounded memory.
//!
//! At most one export is in flight per processor: no transition hands out a
//! batch while `exporting` is set, and every handed-out batch sets it.

use vstd::prelude::*;

use crate::span::Span;

verus! {

/// The batch-processor state: the accumulating buffer in enqueue order, the
/// size threshold that triggers an export, whether an export is in flight,
/// and whether shutdown has begun.
#[derive(Debug)]
pub struct Processor {
    pub buffer: Vec<Span>,
    pub threshold: usize,
    pub exporting: bool,
    pub stopping: bool,
}

/// The processor as mathematics: the same state over a sequence instead of
/// a vector. The trace lemmas below speak about runs of this model.
pub struct ProcessorModel {
    pub buffer: Seq<Span>,
    pub threshold: int,
    pub exporting: bool,
    pub stopping: bool,
}

/// What a handed-out batch holds, as a sequence.
pub open spec fn batch_view(batch: Option<Vec<Span>>) -> Option<Seq<Span>> {
    match batch {
        Some(b) => Some(b@),
        None => None,
    }
}

/// One `enqueue` transition of the model: exactly what `Processor::enqueue`
/// does, as a function from state and span to state and handed-out batch.
pub open spec fn enqueue_model(m: ProcessorModel, span: Span) -> (ProcessorModel, Option<
    Seq<Span>,
>) {
    if m.stopping {
        (m, None)
    } else {
        let grown = m.buffer.push(span);
        if !m.exporting && grown.len() >= m.threshold {
            (
                ProcessorModel {
                    buffer: Seq::empty(),
                    threshold: m.threshold,
                    exporting: true,
                    stopping: false,
                },
                Some(grown),
            )
        } else {
            (
                ProcessorModel {
                    buffer: grown,
                    threshold: m.threshold,
                    exporting: m.exporting,
                    stopping: false,
                },
                None,
            )
        }
    }
}

/// Runs `enqueue` on every span in order and counts the batches handed out.
pub open spec fn run_enqueues(m: ProcessorModel, spans: Seq<Span>) -> (ProcessorModel, int)
    decreases spans.len(),
{
    if spans.len() == 0 {
        (m, 0)
    } else {
        let (mid, first) = enqueue_model(m, spans[0]);
        let (end, rest) = run_enqueues(mid, spans.drop_first());
        (end, rest + if first is Some {
            1int
        } else {
            0int
        })
    }
}

impl Processor {
    /// The processor invariant: the threshold is positive, and an idle
    /// processor (no export in flight, shutdown not begun) never holds a
    /// full batch — reaching the threshold always triggers an export.
    pub open spec fn wf(&self) -> bool {
        &&& self.threshold >= 1
        &&& !self.exporting && !self.stopping ==> self.buffer@.len() < self.threshold
    }

    /// The mathematical state this processor is in.
    pub open spec fn model(&self) -> ProcessorModel {
        ProcessorModel {
            buffer: self.buffer@,
            threshold: self.threshold as int,
            exporting: self.exporting,
            stopping: self.stopping,
        }
    }

    /// A fresh processor: empty buffer, nothing in flight, not stopping.
    pub fn new(threshold: usize) -> (p: Processor)
        requires
            1 <= threshold,
        ensures
            p.wf(),
            p.buffer@.len() == 0,
            p.threshold == threshold,
            !p.exporting,
            !p.stopping,
    {
        Processor { buffer: Vec::new(), threshold, exporting: false, stopping: false }
    }

    /// Accepts one sealed span. Never fails the caller and never blocks on
    /// I/O: it appends under the buffer lock and at most hands back a batch
    /// for the caller to export on its own timeline. A batch is handed back
    /// exactly when the buffer reaches the threshold while no export is in
    /// flight; it carries every buffered span in enqueue order. After
    /// shutdown has begun the span is rejected (dropped) and nothing
    /// changes. No batch is ever handed back while an export is in flight.
    pub fn enqueue(&mut self, span: Span) -> (batch: Option<Vec<Span>>)
        requires
            old(self).wf(),
        ensures
            final(self).wf(),
            final(self).threshold == old(self).threshold,
            final(self).stopping == old(self).stopping,
            old(self).exporting ==> batch is None,
            old(self).stopping ==> batch is None && *final(self) == *old(self),
            !old(self).stopping && (old(self).exporting || old(self).buffer@.len() + 1 < old(
                self,
            ).threshold) ==> ({
                &&& batch is None
                &&& final(self).buffer@ == old(self).buffer@.push(span)
                &&& final(self).exporting == old(self).exporting
            }),
            !old(self).stopping && !old(self).exporting && old(self).buffer@.len() + 1 >= old(
                self,
            ).threshold ==> ({
                &&& batch matches Some(b) && b@ == old(self).buffer@.push(span)
                &&& final(self).buffer@.len() == 0
                &&& final(self).exporting
            }),
            (final(self).model(), batch_view(batch)) == enqueue_model(old(self).model(), span),
    {
        if self.stopping {
            return None;
        }
        self.buffer.push(span);
        if !self.exporting && self.buffer.len() >= self.threshold {
            self.exporting = true;
            let mut out: Vec<Span> = Vec::new();
            std::mem::swap(&mut self.buffer, &mut out);
            Some(out)
        } else {
            None
        }
    }

    /// The accumulation-time threshold elapsed. Whatever is buffered is
    /// handed back for export, in enqueue order — unless an export is still
    /// in flight, shutdown has begun, or there is nothing to send, in which
    /// case nothing changes.
    pub fn time_elapsed(&mut self) -> (batch: Option<Vec<Span>>)
        requires
            old(self).wf(),
        ensures
            final(self).wf(),
            final(self).threshold == old(self).threshold,
            final(self).stopping == old(self).stopping,
            old(self).exporting ==> batch is None,
            old(self).stopping || old(self).exporting || old(self).buffer@.len() == 0 ==> ({
                &&& batch is None
                &&& *final(self) == *old(self)
            }),
            !old(self).stopping && !old(self).exporting && old(self).buffer@.len() > 0 ==> ({
                &&& batch matches Some(b) && b@ == old(self).buffer@
                &&& final(self).buffer@.len() == 0
                &&& final(self).exporting
            }),
    {
        if self.stopping || self.exporting || self.buffer.is_empty() {
            return None;
        }
        self.exporting = true;
        let mut out: Vec<Span> = Vec::new();
        std::mem::swap(&mut self.buffer, &mut out);
        Some(out)
    }

    /// The in-flight export completed. The outcome is deliberately ignored:
    /// a failed batch is dropped and the pipeline continues unchanged — the
    /// clauses below do not mention `success`, so failure cannot disturb
    /// what is buffered or what happens next. If the buffer meanwhile
    /// reached the threshold (and shutdown has not begun), the next batch is
    /// handed back at once, keeping at most one export in flight.
    pub fn export_finished(&mut self, success: bool) -> (next: Option<Vec<Span>>)
        requires
            old(self).wf(),
            old(self).exporting,
        ensures
            final(self).wf(),
            final(self).threshold == old(self).threshold,
            final(self).stopping == old(self).stopping,
            old(self).stopping || old(self).buffer@.len() < old(self).threshold ==> ({
                &&& next is None
                &&& !final(self).exporting
                &&& final(self).buffer@ == old(self).buffer@
            }),
            !old(self).stopping && old(self).buffer@.len() >= old(self).threshold ==> ({
                &&& next matches Some(b) && b@ == old(self).buffer@
                &&& final(self).buffer@.len() == 0
                &&& final(self).exporting
            }),
    {
        let _ = success;
        if !self.stopping && self.buffer.len() >= self.threshold {
            let mut out: Vec<Span> = Vec::new();
            std::mem::swap(&mut self.buffer, &mut out);
            Some(out)
        } else {
            self.exporting = false;
            None
        }
    }

    /// Shutdown begins: no further spans are accepted. The buffer and any
    /// in-flight export are untouched; the caller drains next.
    pub fn begin_shutdown(&mut self)
        requires
            old(self).wf(),
        ensures
            final(self).wf(),
            final(self).stopping,
            final(self).buffer@ == old(self).buffer@,
            final(self).exporting == old(self).exporting,
            final(self).threshold == old(self).threshold,
    {
        self.stopping = true;
    }

    /// Drains the processor during shutdown. Once no export is in flight,
    /// every span still buffered — all of them enqueued before shutdown
    /// began — is handed back for a final synchronous export and the buffer
    /// is left empty. While an export is still in flight nothing changes:
    /// the caller waits for it (or gives up on its shutdown timeout).
    pub fn drain(&mut self) -> (rest: Option<Vec<Span>>)
        requires
            old(self).wf(),
            old(self).stopping,
        ensures
            final(self).wf(),
            final(self).threshold == old(self).threshold,
            final(self).stopping,
            old(self).exporting ==> rest is None && *final(self) == *old(self),
            !old(self).exporting ==> ({
                &&& rest matches Some(b) && b@ == old(self).buffer@
                &&& final(self).buffer@.len() == 0
                &&& !final(self).exporting
            }),
    {
        if self.exporting {
            return None;
        }
        let mut out: Vec<Span> = Vec::new();
        std::mem::swap(&mut self.buffer, &mut out);
        Some(out)
    }

    /// Whether the processor has reached the terminal drained state:
    /// shutdown begun, nothing in flight, nothing buffered.
    pub fn is_drained(&self) -> (r: bool)
        ensures
            r == (self.stopping && !self.exporting && self.buffer@.len() == 0),
    {
        self.stopping && !self.exporting && self.buffer.is_empty()
    }
}

/// An idle, well-formed processor never holds a full batch: whenever no
/// export is in flight and shutdown has not begun, strictly fewer spans are
/// buffered than the threshold. Together with the transition contracts this
/// says that filling the buffer to the threshold always triggers an export
/// at once, before any accumulation timer has to fire.
pub proof fn lemma_idle_buffer_below_threshold(p: Processor)
    requires
        p.wf(),
        !p.exporting,
        !p.stopping,
    ensures
        p.buffer@.len() < p.threshold,
{
}

/// A run never hands out a negative number of batches.
proof fn lemma_run_count_nonneg(m: ProcessorModel, spans: Seq<Span>)
    ensures
        run_enqueues(m, spans).1 >= 0,
    decreases spans.len(),
{
    if spans.len() > 0 {
        let (mid, first) = enqueue_model(m, spans[0]);
        lemma_run_count_nonneg(mid, spans.drop_first());
    }
}

/// Enough spans force an export: enqueuing a run of spans into an idle,
/// well-formed processor hands out at least one batch as soon as the run
/// carries the buffer to the size threshold — no accumulation timer has to
/// fire first.
pub proof fn lemma_enough_spans_trigger_export(m: ProcessorModel, spans: Seq<Span>)
    requires
        m.threshold >= 1,
        !m.exporting,
        !m.stopping,
        m.buffer.len() < m.threshold,
        m.buffer.len() + spans.len() >= m.threshold,
    ensures
        run_enqueues(m, spans).1 >= 1,
    decreases spans.len(),
{
    let (mid, first) = enqueue_model(m, spans[0]);
    if first is None {
        lemma_enough_spans_trigger_export(mid, spans.drop_first());
    } else {
        lemma_run_count_nonneg(mid, spans.drop_first());
    }
}

/// Below the threshold nothing exports on its own: a run of spans that
/// leaves the buffer short of the threshold hands out no batch and buffers
/// exactly those spans, in enqueue order, after what was already there —
/// only the accumulation timer (`time_elapsed`) flushes them.
pub proof fn lemma_below_threshold_buffers_in_order(m: ProcessorModel, spans: Seq<Span>)
    requires
        !m.exporting,
        !m.stopping,
        m.buffer.len() + spans.len() < m.threshold,
    ensures
        run_enqueues(m, spans).1 == 0,
        run_enqueues(m, spans).0 == (ProcessorModel { buffer: m.buffer + spans, ..m }),
    decreases spans.len(),
{
    if spans.len() == 0 {
        assert(m.buffer + spans =~= m.buffer);
    } else {
        let (mid, first) = enqueue_model(m, spans[0]);
        lemma_below_threshold_buffers_in_order(mid, spans.drop_first());
        assert(mid.buffer + spans.drop_first() =~= m.buffer + spans);
    }
}

/// After shutdown has begun, nothing enters the pipeline any more: a run of
/// late spans changes nothing and hands nothing out.
pub proof fn lemma_stopping_rejects_everything(m: ProcessorModel, spans: Seq<Span>)
    requires
        m.stopping,
    ensures
        run_enqueues(m, spans) == (m, 0int),
    decreases spans.len(),
{
    if spans.len() > 0 {
        lemma_stopping_rejects_everything(m, spans.drop_first());
    }
}

/// At most one export is in flight: while one is, no enqueue load of any
/// length hands out another batch, and the processor is still exporting
/// afterwards.
pub proof fn lemma_single_export_in_flight(m: ProcessorModel, spans: Seq<Span>)
    requires
        m.exporting,
    ensures
        run_enqueues(m, spans).1 == 0,
        run_enqueues(m, spans).0.exporting,
    decreases spans.len(),
{
    if spans.len() > 0 {
        let (mid, first) = enqueue_model(m, spans[0]);
        lemma_single_export_in_flight(mid, spans.drop_first());
    }
}

} // verus!
