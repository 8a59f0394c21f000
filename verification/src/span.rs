//! The span data model.
//!
//! A span is a timed record of one unit of work. It is created open when the
//! work begins, gathers attributes while the work runs, and is sealed with an
//! end timestamp when the work completes. Only sealed spans enter the batch
//! processor.

use vstd::prelude::*;

verus! {

/// Outcome recorded on a span.
#[derive(Clone, Copy, Debug, PartialEq, Eq, Structural)]
pub enum SpanStatus {
    Unset,
    Completed,
    Failed,
}

/// A span still being recorded: mutable while its unit of work runs.
#[derive(Debug)]
pub struct OpenSpan {
    pub name: String,
    pub start: u64,
    pub attributes: Vec<(String, String)>,
    pub status: SpanStatus,
    pub parent: Option<u64>,
}

/// A sealed span: immutable, owned by the batch processor after handoff.
#[derive(Debug)]
pub struct Span {
    pub name: String,
    pub start: u64,
    pub end: u64,
    pub attributes: Vec<(String, String)>,
    pub status: SpanStatus,
    pub parent: Option<u64>,
}

impl Span {
    /// A sealed span never ends before it starts.
    pub open spec fn wf(&self) -> bool {
        self.start <= self.end
    }
}

impl OpenSpan {
    /// Opens a span for a unit of work that starts now.
    pub fn begin(name: String, start: u64, parent: Option<u64>) -> (s: OpenSpan)
        ensures
            s.name == name,
            s.start == start,
            s.attributes@.len() == 0,
            s.status is Unset,
            s.parent == parent,
    {
        OpenSpan { name, start, attributes: Vec::new(), status: SpanStatus::Unset, parent }
    }

    /// Appends one key/value attribute; everything else is untouched.
    pub fn set_attribute(&mut self, key: String, value: String)
        ensures
            final(self).attributes@ == old(self).attributes@.push((key, value)),
            final(self).name == old(self).name,
            final(self).start == old(self).start,
            final(self).status == old(self).status,
            final(self).parent == old(self).parent,
    {
        self.attributes.push((key, value));
    }

    /// Records the outcome; everything else is untouched.
    pub fn set_status(&mut self, status: SpanStatus)
        ensures
            final(self).status == status,
            final(self).name == old(self).name,
            final(self).start == old(self).start,
            final(self).attributes@ == old(self).attributes@,
            final(self).parent == old(self).parent,
    {
        self.status = status;
    }

    /// Seals the span. After this the record is immutable and ready for the
    /// batch processor.
    pub fn finish(self, end: u64) -> (s: Span)
        requires
            self.start <= end,
        ensures
            s.wf(),
            s.name == self.name,
            s.start == self.start,
            s.end == end,
            s.attributes@ == self.attributes@,
            s.status == self.status,
            s.parent == self.parent,
    {
        Span {
            name: self.name,
            start: self.start,
            end,
            attributes: self.attributes,
            status: self.status,
            parent: self.parent,
        }
    }
}

/// Builds the sealed span for one handled request, carrying the standard
/// HTTP attributes (method and target) and a status derived from the
/// response code: server errors mark the span as failed, everything else as
/// successful.
pub fn request_span(method: String, path: String, status_code: u16, start: u64, end: u64) -> (s:
    Span)
    requires
        start <= end,
    ensures
        s.wf(),
        s.name@ == "HTTP request"@,
        s.start == start,
        s.end == end,
        s.attributes@.len() == 2,
        s.attributes@[0].0@ == "http.method"@,
        s.attributes@[0].1 == method,
        s.attributes@[1].0@ == "http.target"@,
        s.attributes@[1].1 == path,
        s.status == (if status_code >= 500 {
            SpanStatus::Failed
        } else {
            SpanStatus::Completed
        }),
        s.parent is None,
{
    let mut attributes: Vec<(String, String)> = Vec::new();
    attributes.push(("http.method".to_owned(), method));
    attributes.push(("http.target".to_owned(), path));
    let status = if status_code >= 500 {
        SpanStatus::Failed
    } else {
        SpanStatus::Completed
    };
    Span { name: "HTTP request".to_owned(), start, end, attributes, status, parent: None }
}

} // verus!
