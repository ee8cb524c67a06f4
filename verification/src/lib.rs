//! Client-side tracing core: spans are opened, given tags and log entries,
//! and ended; what they leave is queued, and handed out in batches together
//! with a description of the process.
//!
//! [`init`] opens the queue and returns its two ends. Spans are opened from
//! the [`TracesIn`] handle, or as children of other spans, and end with
//! [`Span::finish`], which offers the finished span to the queue and never
//! waits: where the queue is full the span is dropped. The [`TracesOut`]
//! end is driven from one place: the caller waits on
//! [`TracesOut::receiver`] for chunks of finished spans, hands each to
//! [`TracesOut::next`], and encodes and sends the batch that comes back.
//!
//! Every type has a mathematical model, its view, and every function says
//! in its contract what it does to the models. What holds of all spans,
//! log entries and consumers is proved once, in the lemmas beside them.

use vstd::prelude::*;
use std::sync::Arc;

pub mod consumer;
pub mod ids;
pub mod queue;
pub mod record;
pub mod span;
pub mod tag;
pub mod time;

pub use crate::consumer::{ConsumerView, TracesOut};
pub use crate::ids::TraceId;
pub use crate::queue::{TracesIn, QUEUE_CAPACITY};
pub use crate::record::{Batch, FinishedSpan, LogRecord, Process};
pub use crate::span::{Log, Span, SpanView};
pub use crate::tag::{Tag, TagValue};
pub use crate::time::Timestamp;

verus! {

/// What [`init`] needs to know.
pub struct Config {
    /// Name of the service, reported with every batch.
    pub service_name: String,
}

/// Opens the queue and returns its two ends: the handle from which spans
/// are opened, to be shared by all who open them, and the consumer, to be
/// driven from one place.
pub fn init(config: Config) -> (ends: (Arc<TracesIn>, TracesOut))
    ensures
        ends.1@ == ConsumerView::initial(config.service_name@),
{
    let (sender, receiver) = queue::open_channel(QUEUE_CAPACITY);
    let traces_in = Arc::new(TracesIn::new(sender));
    let traces_out = TracesOut::new(receiver, config.service_name);
    (traces_in, traces_out)
}

} // verus!
