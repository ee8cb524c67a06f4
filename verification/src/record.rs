//! The records that leave the library: finished spans, their log entries,
//! the process they come from, and the batches that carry them.

use vstd::prelude::*;
use crate::tag::{clone_tags, tags_view, Tag, TagView};

verus! {

/// An event at one point in time: a timestamp and the fields attached to it.
#[derive(Debug, PartialEq, Eq)]
pub struct LogRecord {
    /// Microseconds since the Unix epoch.
    pub timestamp: i64,
    pub fields: Vec<Tag>,
}

/// A span after its end: what is handed on for delivery.
#[derive(Debug, PartialEq, Eq)]
pub struct FinishedSpan {
    /// The low 64 bits of the trace identifier, read as a signed integer.
    pub trace_id_low: i64,
    /// The high 64 bits of the trace identifier, read as a signed integer.
    pub trace_id_high: i64,
    /// The span's identifier, read as a signed integer.
    pub span_id: i64,
    /// The parent's identifier, read as a signed integer; zero for a root.
    pub parent_span_id: i64,
    pub operation_name: String,
    pub flags: i32,
    /// Microseconds from the Unix epoch to the span's start.
    pub start_time: i64,
    /// Microseconds from the span's start to its end.
    pub duration: i64,
    pub tags: Vec<Tag>,
    /// The log entries in the order they were completed; absent when the
    /// span has none.
    pub logs: Option<Vec<LogRecord>>,
}

/// What is reported of the process with every batch.
#[derive(Debug, PartialEq, Eq)]
pub struct Process {
    pub service_name: String,
    pub tags: Vec<Tag>,
}

/// The unit of delivery: the process, and finished spans in the order in
/// which they were submitted.
#[derive(Debug, PartialEq, Eq)]
pub struct Batch {
    pub process: Process,
    pub spans: Vec<FinishedSpan>,
}

/// Mathematical model of a [`LogRecord`].
pub struct LogView {
    pub timestamp: i64,
    pub fields: Seq<TagView>,
}

/// Mathematical model of a [`FinishedSpan`].
pub struct FinishedSpanView {
    pub trace_id_low: i64,
    pub trace_id_high: i64,
    pub span_id: i64,
    pub parent_span_id: i64,
    pub operation_name: Seq<char>,
    pub flags: i32,
    pub start_time: i64,
    pub duration: i64,
    pub tags: Seq<TagView>,
    pub logs: Option<Seq<LogView>>,
}

/// Mathematical model of a [`Process`].
pub struct ProcessView {
    pub service_name: Seq<char>,
    pub tags: Seq<TagView>,
}

/// Mathematical model of a [`Batch`].
pub struct BatchView {
    pub process: ProcessView,
    pub spans: Seq<FinishedSpanView>,
}

impl View for LogRecord {
    type V = LogView;

    open spec fn view(&self) -> LogView {
        LogView { timestamp: self.timestamp, fields: tags_view(self.fields@) }
    }
}

/// The model of a sequence of log entries: the model of each, in the same
/// order.
pub open spec fn logs_view(logs: Seq<LogRecord>) -> Seq<LogView> {
    Seq::new(logs.len(), |i: int| logs[i]@)
}

impl View for FinishedSpan {
    type V = FinishedSpanView;

    open spec fn view(&self) -> FinishedSpanView {
        FinishedSpanView {
            trace_id_low: self.trace_id_low,
            trace_id_high: self.trace_id_high,
            span_id: self.span_id,
            parent_span_id: self.parent_span_id,
            operation_name: self.operation_name@,
            flags: self.flags,
            start_time: self.start_time,
            duration: self.duration,
            tags: tags_view(self.tags@),
            logs: match self.logs {
                Some(logs) => Some(logs_view(logs@)),
                None => None,
            },
        }
    }
}

/// The model of a sequence of finished spans: the model of each, in the
/// same order.
pub open spec fn spans_view(spans: Seq<FinishedSpan>) -> Seq<FinishedSpanView> {
    Seq::new(spans.len(), |i: int| spans[i]@)
}

impl View for Process {
    type V = ProcessView;

    open spec fn view(&self) -> ProcessView {
        ProcessView { service_name: self.service_name@, tags: tags_view(self.tags@) }
    }
}

impl View for Batch {
    type V = BatchView;

    open spec fn view(&self) -> BatchView {
        BatchView { process: self.process@, spans: spans_view(self.spans@) }
    }
}

/// Appending one log entry to a sequence appends its model to the
/// sequence's model.
pub proof fn lemma_logs_view_push(logs: Seq<LogRecord>, log: LogRecord)
    ensures
        logs_view(logs.push(log)) == logs_view(logs).push(log@),
{
    assert(logs_view(logs.push(log)) =~= logs_view(logs).push(log@));
}

impl Clone for LogRecord {
    /// A deep copy of the entry.
    fn clone(&self) -> (copy: LogRecord)
        ensures
            copy@ == self@,
    {
        LogRecord { timestamp: self.timestamp, fields: clone_tags(&self.fields) }
    }
}

impl Clone for FinishedSpan {
    /// A deep copy of the record.
    fn clone(&self) -> (copy: FinishedSpan)
        ensures
            copy@ == self@,
    {
        let logs = match &self.logs {
            Some(logs) => {
                let copy = logs.clone();
                assert(logs_view(copy@) =~= logs_view(logs@));
                Some(copy)
            },
            None => None,
        };
        FinishedSpan {
            trace_id_low: self.trace_id_low,
            trace_id_high: self.trace_id_high,
            span_id: self.span_id,
            parent_span_id: self.parent_span_id,
            operation_name: self.operation_name.clone(),
            flags: self.flags,
            start_time: self.start_time,
            duration: self.duration,
            tags: clone_tags(&self.tags),
            logs,
        }
    }
}

impl Clone for Process {
    /// A deep copy of the process description as it now stands.
    fn clone(&self) -> (copy: Process)
        ensures
            copy@ == self@,
    {
        Process { service_name: self.service_name.clone(), tags: clone_tags(&self.tags) }
    }
}

impl Clone for Batch {
    /// A deep copy of the batch.
    fn clone(&self) -> (copy: Batch)
        ensures
            copy@ == self@,
    {
        let spans = self.spans.clone();
        assert(spans_view(spans@) =~= spans_view(self.spans@));
        Batch { process: self.process.clone(), spans }
    }
}

} // verus!
