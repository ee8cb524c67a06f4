//! The consuming end: the process description, and the steps by which
//! chunks of finished spans become batches.

use vstd::prelude::*;
use futures::channel::mpsc::Receiver;
use crate::record::{
    spans_view, Batch, BatchView, FinishedSpan, FinishedSpanView, Process, ProcessView,
};
use crate::tag::{
    base_tags, base_tags_view, int_tag, int_tag_view, lemma_tags_view_push, string_tag,
    string_tag_view, TagView,
};

verus! {

/// Most finished spans that one chunk, and so one batch, is to hold: the
/// size of chunk that the caller asks of the queue.
pub const READY_CHUNK_CAPACITY: usize = 64;

/// Mathematical model of a [`TracesOut`]: the process description and
/// whether the end of the queue has been seen.
pub struct ConsumerView {
    pub process: ProcessView,
    pub terminated: bool,
}

impl ConsumerView {
    /// The consumer as it stands when it is made.
    pub open spec fn initial(service_name: Seq<char>) -> ConsumerView {
        ConsumerView {
            process: ProcessView { service_name, tags: base_tags_view() },
            terminated: false,
        }
    }

    /// This consumer with one more process tag.
    pub open spec fn with_tag(self, tag: TagView) -> ConsumerView {
        ConsumerView {
            process: ProcessView { tags: self.process.tags.push(tag), ..self.process },
            ..self
        }
    }

    /// The consumer after it was handed what the queue gave: a chunk of
    /// finished spans, or nothing where the queue has ended.
    pub open spec fn after(self, chunk: Option<Seq<FinishedSpanView>>) -> ConsumerView {
        if chunk is None {
            ConsumerView { terminated: true, ..self }
        } else {
            self
        }
    }

    /// The batch that comes of what the queue gave: the chunk under the
    /// process description as it stands, unless the end of the queue was
    /// seen before or is seen now.
    pub open spec fn batch(self, chunk: Option<Seq<FinishedSpanView>>) -> Option<BatchView> {
        match chunk {
            Some(spans) if !self.terminated => Some(BatchView { process: self.process, spans }),
            _ => None,
        }
    }

    /// The consumer after it was handed `chunks` one after another.
    pub open spec fn after_all(self, chunks: Seq<Option<Seq<FinishedSpanView>>>) -> ConsumerView
        decreases chunks.len(),
    {
        if chunks.len() == 0 {
            self
        } else {
            self.after_all(chunks.drop_last()).after(chunks.last())
        }
    }
}

/// The model of what the queue gave.
pub open spec fn chunk_view(chunk: Option<Vec<FinishedSpan>>) -> Option<Seq<FinishedSpanView>> {
    match chunk {
        Some(spans) => Some(spans_view(spans@)),
        None => None,
    }
}

/// The consuming end of the queue, driven by one caller at a time.
pub struct TracesOut {
    receiver: Receiver<FinishedSpan>,
    process: Process,
    terminated: bool,
}

impl View for TracesOut {
    type V = ConsumerView;

    closed spec fn view(&self) -> ConsumerView {
        ConsumerView { process: self.process@, terminated: self.terminated }
    }
}

impl TracesOut {
    /// The receiving end of the queue that this consumer reads from.
    pub closed spec fn queue(&self) -> Receiver<FinishedSpan> {
        self.receiver
    }

    /// A consumer that reads from `receiver` on behalf of the service
    /// `service_name`.
    pub(crate) fn new(receiver: Receiver<FinishedSpan>, service_name: String) -> (out: TracesOut)
        ensures
            out@ == ConsumerView::initial(service_name@),
            out.queue() == receiver,
    {
        TracesOut {
            receiver,
            process: Process { service_name, tags: base_tags() },
            terminated: false,
        }
    }

    /// Whether the end of the queue has been seen: every producer is gone
    /// and nothing is left to deliver. From then on no batch will ever
    /// come, and the caller is to wait without end.
    pub fn is_terminated(&self) -> (terminated: bool)
        ensures
            terminated == self@.terminated,
    {
        self.terminated
    }

    /// The receiving end of the queue, on which the caller waits for the
    /// next chunk of finished spans.
    pub fn receiver(&mut self) -> (receiver: &mut Receiver<FinishedSpan>)
        ensures
            *receiver == old(self).queue(),
            *final(receiver) == final(self).queue(),
            final(self)@ == old(self)@,
    {
        &mut self.receiver
    }

    /// Takes what the queue gave and returns the batch to deliver, if any.
    ///
    /// A chunk becomes one batch: its spans in the order in which they
    /// came, under a copy of the process description as it now stands.
    /// Where the queue gave nothing, it has ended: no batch comes, now or
    /// later.
    pub fn next(&mut self, chunk: Option<Vec<FinishedSpan>>) -> (batch: Option<Batch>)
        ensures
            final(self)@ == old(self)@.after(chunk_view(chunk)),
            final(self).queue() == old(self).queue(),
            match batch {
                Some(batch) => old(self)@.batch(chunk_view(chunk)) == Some(batch@),
                None => old(self)@.batch(chunk_view(chunk)) is None,
            },
    {
        match chunk {
            Some(spans) => {
                if self.terminated {
                    None
                } else {
                    Some(Batch { process: self.process.clone(), spans })
                }
            },
            None => {
                self.terminated = true;
                None
            },
        }
    }

    /// Adds a text tag to the process description. It is reported with
    /// every batch made from now on.
    pub fn add_string_tag(&mut self, key: &str, value: &str)
        ensures
            final(self)@ == old(self)@.with_tag(string_tag_view(key@, value@)),
            final(self).queue() == old(self).queue(),
    {
        let tag = string_tag(key, value);
        proof {
            lemma_tags_view_push(self.process.tags@, tag);
        }
        self.process.tags.push(tag);
    }

    /// Adds an integer tag to the process description. It is reported with
    /// every batch made from now on.
    pub fn add_int_tag(&mut self, key: &str, value: i64)
        ensures
            final(self)@ == old(self)@.with_tag(int_tag_view(key@, value)),
            final(self).queue() == old(self).queue(),
    {
        let tag = int_tag(key, value);
        proof {
            lemma_tags_view_push(self.process.tags@, tag);
        }
        self.process.tags.push(tag);
    }
}

/// Once the end of the queue has been seen it stays seen: whatever is
/// handed to the consumer afterwards, it does not change, and no batch
/// comes of it.
pub proof fn lemma_terminated_for_good(
    consumer: ConsumerView,
    chunks: Seq<Option<Seq<FinishedSpanView>>>,
)
    requires
        consumer.terminated,
    ensures
        consumer.after_all(chunks) == consumer,
        forall|chunk: Option<Seq<FinishedSpanView>>|
            (#[trigger] consumer.after_all(chunks).batch(chunk)) is None,
    decreases chunks.len(),
{
    if chunks.len() > 0 {
        lemma_terminated_for_good(consumer, chunks.drop_last());
    }
}

/// The end of the queue is seen exactly when the queue gives nothing, and
/// a batch comes exactly of a chunk handed over before that: the batch
/// holds the chunk as it came, under the process description of that time.
pub proof fn lemma_batch_of_chunk(consumer: ConsumerView, chunk: Option<Seq<FinishedSpanView>>)
    ensures
        consumer.after(chunk).terminated <==> consumer.terminated || chunk is None,
        consumer.after(chunk).process == consumer.process,
        consumer.batch(chunk) is Some <==> !consumer.terminated && chunk is Some,
        consumer.batch(chunk) matches Some(batch) ==> chunk == Some(batch.spans) && batch.process
            == consumer.process,
{
}

/// A process tag is reported with the batches made after it was added,
/// after the tags that were there.
pub proof fn lemma_process_tag_in_next_batch(
    consumer: ConsumerView,
    tag: TagView,
    spans: Seq<FinishedSpanView>,
)
    requires
        !consumer.terminated,
    ensures
        consumer.with_tag(tag).batch(Some(spans)) matches Some(batch) && batch.process.tags
            == consumer.process.tags.push(tag) && batch.process.service_name
            == consumer.process.service_name && batch.spans == spans,
{
}

} // verus!
