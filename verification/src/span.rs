//! Spans and their log entries: how they are opened, what is attached to
//! them, and the record that each leaves when it ends.

use vstd::prelude::*;
use std::sync::Arc;
use crate::ids::{
    high_half, low_half, signed_bits, split_halves, to_signed, two_pow_64, unsigned_bits, TraceId,
};
use crate::queue::TracesIn;
use crate::record::{
    lemma_logs_view_push, logs_view, FinishedSpan, FinishedSpanView, LogRecord, LogView,
};
use crate::tag::{
    base_tags, base_tags_view, int_tag, int_tag_view, lemma_tags_view_push, string_tag,
    string_tag_view, tags_view, Tag, TagView,
};
use crate::time::{micros_clamped, Timestamp};

verus! {

/// Mathematical model of an open [`Span`].
pub struct SpanView {
    pub trace_id: u128,
    pub span_id: u64,
    /// The parent's identifier; zero for a root.
    pub parent_span_id: u64,
    pub operation_name: Seq<char>,
    /// Nanoseconds from the Unix epoch to the start; negative before it.
    pub start: int,
    pub tags: Seq<TagView>,
    pub logs: Seq<LogView>,
}

impl SpanView {
    /// A span without a parent, as it stands when it is opened.
    pub open spec fn root(
        trace_id: u128,
        span_id: u64,
        operation_name: Seq<char>,
        start: int,
    ) -> SpanView {
        SpanView {
            trace_id,
            span_id,
            parent_span_id: 0,
            operation_name,
            start,
            tags: base_tags_view(),
            logs: Seq::empty(),
        }
    }

    /// A child of this span, as it stands when it is opened.
    pub open spec fn child(self, span_id: u64, operation_name: Seq<char>, start: int) -> SpanView {
        SpanView {
            trace_id: self.trace_id,
            span_id,
            parent_span_id: self.span_id,
            operation_name,
            start,
            tags: base_tags_view(),
            logs: Seq::empty(),
        }
    }

    /// This span with one more tag.
    pub open spec fn with_tag(self, tag: TagView) -> SpanView {
        SpanView { tags: self.tags.push(tag), ..self }
    }

    /// This span after `tags` were attached one after another.
    pub open spec fn with_tags(self, tags: Seq<TagView>) -> SpanView
        decreases tags.len(),
    {
        if tags.len() == 0 {
            self
        } else {
            self.with_tags(tags.drop_last()).with_tag(tags.last())
        }
    }

    /// This span with one more completed log entry.
    pub open spec fn with_log(self, log: LogView) -> SpanView {
        SpanView { logs: self.logs.push(log), ..self }
    }

    /// The record that this span leaves when it ends at `end`, given like
    /// `start` in nanoseconds from the Unix epoch.
    pub open spec fn finish(self, end: int) -> FinishedSpanView {
        FinishedSpanView {
            trace_id_low: signed_bits(low_half(self.trace_id)),
            trace_id_high: signed_bits(high_half(self.trace_id)),
            span_id: signed_bits(self.span_id),
            parent_span_id: signed_bits(self.parent_span_id),
            operation_name: self.operation_name,
            flags: 0,
            start_time: micros_clamped(self.start),
            duration: micros_clamped(end - self.start),
            tags: self.tags,
            logs: if self.logs.len() == 0 {
                None
            } else {
                Some(self.logs)
            },
        }
    }
}

impl LogView {
    /// A log entry without fields, as it stands when it is opened.
    pub open spec fn opened(timestamp: i64) -> LogView {
        LogView { timestamp, fields: Seq::empty() }
    }

    /// This entry with one more field.
    pub open spec fn with_field(self, field: TagView) -> LogView {
        LogView { fields: self.fields.push(field), ..self }
    }

    /// This entry after `fields` were added one after another.
    pub open spec fn with_fields(self, fields: Seq<TagView>) -> LogView
        decreases fields.len(),
    {
        if fields.len() == 0 {
            self
        } else {
            self.with_fields(fields.drop_last()).with_field(fields.last())
        }
    }
}

/// One timed operation of a trace, open until [`Span::finish`] is called.
#[must_use]
pub struct Span {
    traces_in: Arc<TracesIn>,
    trace_id: TraceId,
    span_id: u64,
    parent_span_id: u64,
    operation_name: String,
    start_time: Timestamp,
    tags: Vec<Tag>,
    logs: Vec<LogRecord>,
}

impl View for Span {
    type V = SpanView;

    closed spec fn view(&self) -> SpanView {
        SpanView {
            trace_id: self.trace_id@,
            span_id: self.span_id,
            parent_span_id: self.parent_span_id,
            operation_name: self.operation_name@,
            start: self.start_time.offset(),
            tags: tags_view(self.tags@),
            logs: logs_view(self.logs@),
        }
    }
}

impl Span {
    /// The handle through which this span will be sent when it ends.
    pub closed spec fn producer(&self) -> Arc<TracesIn> {
        self.traces_in
    }
}

/// Draws a span identifier with `rand::random`. Nothing is claimed of it:
/// any value may come, zero and one drawn before included.
#[verifier::external_body]
fn random_span_id() -> (span_id: u64) {
    rand::random()
}

impl TracesIn {
    /// Opens a span without a parent in the trace `trace_id`, starting now
    /// and under an identifier drawn at random.
    pub fn span(self: &Arc<Self>, trace_id: TraceId, operation_name: &str) -> (span: Span)
        ensures
            span@ == SpanView::root(trace_id@, span@.span_id, operation_name@, span@.start),
            span.producer() == *self,
    {
        self.span_with(trace_id, random_span_id(), operation_name, Timestamp::now())
    }

    /// Opens a span without a parent in the trace `trace_id`, under the
    /// identifier `span_id` and starting at `start`.
    pub fn span_with(
        self: &Arc<Self>,
        trace_id: TraceId,
        span_id: u64,
        operation_name: &str,
        start: Timestamp,
    ) -> (span: Span)
        ensures
            span@ == SpanView::root(trace_id@, span_id, operation_name@, start.offset()),
            span.producer() == *self,
    {
        let logs: Vec<LogRecord> = Vec::new();
        assert(logs_view(logs@) =~= Seq::empty());
        Span {
            traces_in: TracesIn::share(self),
            trace_id,
            span_id,
            parent_span_id: 0,
            operation_name: operation_name.to_owned(),
            start_time: start,
            tags: base_tags(),
            logs,
        }
    }
}

impl Span {
    /// The trace this span belongs to.
    pub fn trace_id(&self) -> (trace_id: TraceId)
        ensures
            trace_id@ == self@.trace_id,
    {
        self.trace_id
    }

    /// This span's own identifier.
    pub fn span_id(&self) -> (span_id: u64)
        ensures
            span_id == self@.span_id,
    {
        self.span_id
    }

    /// The identifier of the span this one was opened from; zero for a root.
    pub fn parent_span_id(&self) -> (parent_span_id: u64)
        ensures
            parent_span_id == self@.parent_span_id,
    {
        self.parent_span_id
    }

    /// Opens a child of this span, starting now and under an identifier
    /// drawn at random. The child does not borrow its parent: either may
    /// end first.
    pub fn child(&self, operation_name: &str) -> (child: Span)
        ensures
            child@ == self@.child(child@.span_id, operation_name@, child@.start),
            child.producer() == self.producer(),
    {
        self.child_with(random_span_id(), operation_name, Timestamp::now())
    }

    /// Opens a child of this span under the identifier `span_id`, starting
    /// at `start`.
    pub fn child_with(&self, span_id: u64, operation_name: &str, start: Timestamp) -> (child: Span)
        ensures
            child@ == self@.child(span_id, operation_name@, start.offset()),
            child.producer() == self.producer(),
    {
        let logs: Vec<LogRecord> = Vec::new();
        assert(logs_view(logs@) =~= Seq::empty());
        Span {
            traces_in: TracesIn::share(&self.traces_in),
            trace_id: self.trace_id,
            span_id,
            parent_span_id: self.span_id,
            operation_name: operation_name.to_owned(),
            start_time: start,
            tags: base_tags(),
            logs,
        }
    }

    /// Attaches a text tag. Keys may repeat: every tag stays, in the order
    /// in which it came.
    pub fn add_string_tag(&mut self, key: &str, value: &str)
        ensures
            final(self)@ == old(self)@.with_tag(string_tag_view(key@, value@)),
            final(self).producer() == old(self).producer(),
    {
        let tag = string_tag(key, value);
        proof {
            lemma_tags_view_push(self.tags@, tag);
        }
        self.tags.push(tag);
    }

    /// Attaches an integer tag. Keys may repeat: every tag stays, in the
    /// order in which it came.
    pub fn add_int_tag(&mut self, key: &str, value: i64)
        ensures
            final(self)@ == old(self)@.with_tag(int_tag_view(key@, value)),
            final(self).producer() == old(self).producer(),
    {
        let tag = int_tag(key, value);
        proof {
            lemma_tags_view_push(self.tags@, tag);
        }
        self.tags.push(tag);
    }

    /// Opens a log entry stamped with the current time. The span cannot be
    /// touched until the entry is completed or given up.
    pub fn log(&mut self) -> (log: Log<'_>)
        ensures
            log@ == LogView::opened(log@.timestamp),
            0 <= log@.timestamp,
            *log.span == *old(self),
            *final(log.span) == *final(self),
    {
        self.log_at(Timestamp::now())
    }

    /// Opens a log entry stamped with `at`, in microseconds since the Unix
    /// epoch.
    pub fn log_at(&mut self, at: Timestamp) -> (log: Log<'_>)
        ensures
            log@ == LogView::opened(micros_clamped(at.offset())),
            *log.span == *old(self),
            *final(log.span) == *final(self),
    {
        let timestamp: i64 = at.micros_since_epoch();
        let fields: Vec<Tag> = Vec::new();
        assert(tags_view(fields@) =~= Seq::empty());
        Log { span: self, record: LogRecord { timestamp, fields } }
    }

    /// Ends the span at `end`: its record, and the handle through which
    /// the record is to be sent.
    fn close(self, end: Timestamp) -> (closed: (Arc<TracesIn>, FinishedSpan))
        ensures
            closed.1@ == self@.finish(end.offset()),
            closed.1.trace_id_high != 0 || closed.1.trace_id_low != 0,
    {
        let id: u128 = self.trace_id.get();
        let (high, low) = split_halves(id);
        let start_time: i64 = self.start_time.micros_since_epoch();
        let duration: i64 = end.micros_since(&self.start_time);
        let logs = if self.logs.len() == 0 {
            None
        } else {
            Some(self.logs)
        };
        let record = FinishedSpan {
            trace_id_low: to_signed(low),
            trace_id_high: to_signed(high),
            span_id: to_signed(self.span_id),
            parent_span_id: to_signed(self.parent_span_id),
            operation_name: self.operation_name,
            flags: 0,
            start_time,
            duration,
            tags: self.tags,
            logs,
        };
        (self.traces_in, record)
    }

    /// Ends the span at `end` and turns it into its record, without
    /// sending it.
    pub fn into_record(self, end: Timestamp) -> (record: FinishedSpan)
        ensures
            record@ == self@.finish(end.offset()),
            record.trace_id_high != 0 || record.trace_id_low != 0,
            record.duration >= 0,
    {
        self.close(end).1
    }

    /// Ends the span now and offers its record to the queue, without
    /// waiting. Where the queue is full or the consumer is gone the record
    /// is dropped and nothing is reported.
    pub fn finish(self) {
        let (traces_in, record) = self.close(Timestamp::now());
        let _ = traces_in.try_send(record);
    }
}

/// A log entry under construction. It holds its span, which cannot be
/// touched otherwise until the entry is completed with [`Log::finish`].
#[must_use]
pub struct Log<'a> {
    /// The span to which the entry will be appended.
    pub span: &'a mut Span,
    /// The entry as built so far.
    pub record: LogRecord,
}

impl<'a> View for Log<'a> {
    type V = LogView;

    open spec fn view(&self) -> LogView {
        self.record@
    }
}

impl<'a> Log<'a> {
    /// Adds a text field, after those already there.
    pub fn with_string(self, key: &str, value: &str) -> (log: Self)
        ensures
            log@ == self@.with_field(string_tag_view(key@, value@)),
            log.span == self.span,
    {
        let mut log = self;
        let field = string_tag(key, value);
        proof {
            lemma_tags_view_push(log.record.fields@, field);
        }
        log.record.fields.push(field);
        log
    }

    /// Adds an integer field, after those already there.
    pub fn with_int(self, key: &str, value: i64) -> (log: Self)
        ensures
            log@ == self@.with_field(int_tag_view(key@, value)),
            log.span == self.span,
    {
        let mut log = self;
        let field = int_tag(key, value);
        proof {
            lemma_tags_view_push(log.record.fields@, field);
        }
        log.record.fields.push(field);
        log
    }

    /// Completes the entry: it is appended to its span as one unit, after
    /// the entries completed before it.
    pub fn finish(self)
        ensures
            final(self.span)@ == old(self.span)@.with_log(self@),
            final(self.span).producer() == old(self.span).producer(),
    {
        let Log { span, record } = self;
        proof {
            lemma_logs_view_push(span.logs@, record);
        }
        span.logs.push(record);
    }
}

/// A root span that ends, whenever it ends, leaves a record without a
/// parent, whose duration is not negative, which holds the two identity
/// tags and no log entry, and whose trace identifier is not zero.
pub proof fn lemma_root_record(
    trace_id: u128,
    span_id: u64,
    operation_name: Seq<char>,
    start: int,
    end: int,
)
    requires
        trace_id != 0,
    ensures
        SpanView::root(trace_id, span_id, operation_name, start).finish(end).parent_span_id == 0,
        SpanView::root(trace_id, span_id, operation_name, start).finish(end).duration >= 0,
        SpanView::root(trace_id, span_id, operation_name, start).finish(end).start_time >= 0,
        SpanView::root(trace_id, span_id, operation_name, start).finish(end).tags
            == base_tags_view(),
        SpanView::root(trace_id, span_id, operation_name, start).finish(end).logs is None,
        SpanView::root(trace_id, span_id, operation_name, start).finish(end).trace_id_high != 0
            || SpanView::root(trace_id, span_id, operation_name, start).finish(
            end,
        ).trace_id_low != 0,
{
}

/// A span that ends at or before its start leaves a record of duration
/// zero.
pub proof fn lemma_clock_going_back(span: SpanView, end: int)
    requires
        end <= span.start,
    ensures
        span.finish(end).duration == 0,
{
}

/// A child is in its parent's trace and names its parent, and so do the
/// records that the two leave.
pub proof fn lemma_child_of_parent(
    parent: SpanView,
    span_id: u64,
    operation_name: Seq<char>,
    start: int,
    parent_end: int,
    child_end: int,
)
    ensures
        parent.child(span_id, operation_name, start).trace_id == parent.trace_id,
        parent.child(span_id, operation_name, start).parent_span_id == parent.span_id,
        parent.child(span_id, operation_name, start).finish(child_end).trace_id_high
            == parent.finish(parent_end).trace_id_high,
        parent.child(span_id, operation_name, start).finish(child_end).trace_id_low
            == parent.finish(parent_end).trace_id_low,
        parent.child(span_id, operation_name, start).finish(child_end).parent_span_id
            == parent.finish(parent_end).span_id,
{
}

/// Tags attached one after another stand after the tags that were there,
/// in the order in which they were attached, and nothing else changes.
pub proof fn lemma_tags_in_order(span: SpanView, tags: Seq<TagView>)
    ensures
        span.with_tags(tags) == (SpanView { tags: span.tags + tags, ..span }),
    decreases tags.len(),
{
    if tags.len() == 0 {
        assert(span.tags + tags =~= span.tags);
    } else {
        lemma_tags_in_order(span, tags.drop_last());
        assert((span.tags + tags.drop_last()).push(tags.last()) =~= span.tags + tags);
    }
}

/// A root span to which `tags` were attached leaves a record that holds
/// the two identity tags and then `tags` in their order: two more tags than
/// were attached.
pub proof fn lemma_root_record_tags(
    trace_id: u128,
    span_id: u64,
    operation_name: Seq<char>,
    start: int,
    end: int,
    tags: Seq<TagView>,
)
    ensures
        SpanView::root(trace_id, span_id, operation_name, start).with_tags(tags).finish(end).tags
            == base_tags_view() + tags,
        SpanView::root(trace_id, span_id, operation_name, start).with_tags(tags).finish(
            end,
        ).tags.len() == tags.len() + 2,
{
    lemma_tags_in_order(SpanView::root(trace_id, span_id, operation_name, start), tags);
}

/// Fields added one after another stand after the fields that were there,
/// in the order in which they were added, and the timestamp stays.
pub proof fn lemma_fields_in_order(log: LogView, fields: Seq<TagView>)
    ensures
        log.with_fields(fields) == (LogView { fields: log.fields + fields, ..log }),
    decreases fields.len(),
{
    if fields.len() == 0 {
        assert(log.fields + fields =~= log.fields);
    } else {
        lemma_fields_in_order(log, fields.drop_last());
        assert((log.fields + fields.drop_last()).push(fields.last()) =~= log.fields + fields);
    }
}

/// A log entry that is opened, given `fields` and completed adds exactly
/// one entry to its span, after those that were there; the entry holds
/// exactly `fields`, in their order, and the span's tags stay.
pub proof fn lemma_completed_log(span: SpanView, timestamp: i64, fields: Seq<TagView>)
    ensures
        span.with_log(LogView::opened(timestamp).with_fields(fields)).logs == span.logs.push(
            LogView { timestamp, fields },
        ),
        span.with_log(LogView::opened(timestamp).with_fields(fields)).logs.len() == span.logs.len()
            + 1,
        span.with_log(LogView::opened(timestamp).with_fields(fields)).tags == span.tags,
{
    lemma_fields_in_order(LogView::opened(timestamp), fields);
    assert(Seq::<TagView>::empty() + fields =~= fields);
}

/// The record of a span holds its log entries in the order in which they
/// were completed, and holds none exactly when none was completed.
pub proof fn lemma_record_logs(span: SpanView, end: int)
    ensures
        span.finish(end).logs is None <==> span.logs.len() == 0,
        span.finish(end).logs matches Some(logs) ==> logs == span.logs,
{
}

/// The trace identifier can be read back from a record: its two halves,
/// taken as unsigned, are the halves of the identifier.
pub proof fn lemma_trace_id_in_record(span: SpanView, end: int)
    ensures
        span.finish(end).trace_id_high == signed_bits(high_half(span.trace_id)),
        span.finish(end).trace_id_low == signed_bits(low_half(span.trace_id)),
        unsigned_bits(span.finish(end).trace_id_high) as int
            * two_pow_64() + unsigned_bits(span.finish(end).trace_id_low)
            == span.trace_id,
{
}

} // verus!
