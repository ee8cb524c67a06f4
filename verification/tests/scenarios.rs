use futures::channel::mpsc::TryRecvError;
use mick_jaeger::tag::{int_tag, string_tag};
use mick_jaeger::{
    init, Config, FinishedSpan, LogRecord, Tag, TagValue, Timestamp, TraceId, TracesOut,
    QUEUE_CAPACITY,
};

fn demo() -> Config {
    Config { service_name: "demo".to_string() }
}

fn drain(traces_out: &mut TracesOut) -> Vec<FinishedSpan> {
    let mut records = Vec::new();
    while let Ok(record) = traces_out.receiver().try_recv() {
        records.push(record);
    }
    records
}

fn identity_tags() -> Vec<Tag> {
    vec![
        string_tag("otel.library.name", "mick-jaeger"),
        string_tag("otel.library.version", "0.1.0"),
    ]
}

#[test]
fn root_span_with_string_tag() {
    let (traces_in, mut traces_out) = init(demo());
    let mut span = traces_in.span(TraceId::new(43).unwrap(), "something");
    span.add_string_tag("key", "value");
    span.finish();
    let records = drain(&mut traces_out);
    assert_eq!(records.len(), 1);
    let record = &records[0];
    assert_eq!(record.trace_id_high, 0);
    assert_eq!(record.trace_id_low, 43);
    assert_eq!(record.parent_span_id, 0);
    assert_eq!(record.operation_name, "something");
    assert!(record.duration >= 0);
    assert!(record.tags.contains(&Tag {
        key: "key".to_string(),
        value: TagValue::Str("value".to_string()),
    }));
    assert!(!record.tags.contains(&Tag { key: "key".to_string(), value: TagValue::Long(0) }));
}

#[test]
fn child_finishes_before_parent() {
    let (traces_in, mut traces_out) = init(demo());
    let parent = traces_in.span(TraceId::new(43).unwrap(), "foo");
    let child = parent.child("bar");
    child.finish();
    parent.finish();
    let records = drain(&mut traces_out);
    assert_eq!(records.len(), 2);
    assert_eq!(records[0].operation_name, "bar");
    assert_eq!(records[1].operation_name, "foo");
    assert_eq!(records[0].trace_id_high, records[1].trace_id_high);
    assert_eq!(records[0].trace_id_low, records[1].trace_id_low);
    assert_eq!(records[0].trace_id_low, 43);
    assert_eq!(records[0].parent_span_id, records[1].span_id);
    assert_eq!(records[1].parent_span_id, 0);
}

#[test]
fn root_span_finished_at_once() {
    let (traces_in, mut traces_out) = init(demo());
    traces_in.span(TraceId::new(u128::MAX).unwrap(), "short").finish();
    let records = drain(&mut traces_out);
    assert_eq!(records.len(), 1);
    assert!(records[0].duration >= 0);
    assert_eq!(records[0].parent_span_id, 0);
    assert_eq!(records[0].trace_id_high, -1);
    assert_eq!(records[0].trace_id_low, -1);
    assert_eq!(records[0].flags, 0);
    assert_eq!(records[0].tags, identity_tags());
    assert_eq!(records[0].logs, None);
}

#[test]
fn child_shares_trace_and_names_parent() {
    let (traces_in, _traces_out) = init(demo());
    let trace_id = TraceId::new(0x1234_5678_9abc_def0_0fed_cba9_8765_4321).unwrap();
    let parent = traces_in.span(trace_id, "parent");
    let child = parent.child("child");
    let grandchild = child.child("grandchild");
    assert_eq!(child.trace_id(), parent.trace_id());
    assert_eq!(child.trace_id(), trace_id);
    assert_eq!(child.parent_span_id(), parent.span_id());
    assert_eq!(parent.parent_span_id(), 0);
    assert_eq!(grandchild.trace_id(), trace_id);
    assert_eq!(grandchild.parent_span_id(), child.span_id());
}

#[test]
fn child_outlives_its_parent() {
    let (traces_in, mut traces_out) = init(demo());
    let parent = traces_in.span_with(
        TraceId::new(7).unwrap(),
        11,
        "parent",
        Timestamp::from_unix_nanos(1_000_000),
    );
    let child = parent.child_with(12, "child", Timestamp::from_unix_nanos(2_000_000));
    parent.finish();
    child.finish();
    let records = drain(&mut traces_out);
    assert_eq!(records.len(), 2);
    assert_eq!(records[0].span_id, 11);
    assert_eq!(records[1].span_id, 12);
    assert_eq!(records[1].parent_span_id, 11);
    assert_eq!(records[0].start_time, 1_000);
    assert_eq!(records[1].start_time, 2_000);
}

#[test]
fn tags_are_kept_in_append_order() {
    let (traces_in, mut traces_out) = init(demo());
    let mut span = traces_in.span(TraceId::new(1).unwrap(), "tagged");
    span.add_string_tag("a", "first");
    span.add_int_tag("b", -2);
    span.add_string_tag("c", "third");
    span.add_int_tag("d", i64::MAX);
    span.add_int_tag("e", i64::MIN);
    span.finish();
    let records = drain(&mut traces_out);
    assert_eq!(records.len(), 1);
    let mut expected = identity_tags();
    expected.push(Tag { key: "a".to_string(), value: TagValue::Str("first".to_string()) });
    expected.push(Tag { key: "b".to_string(), value: TagValue::Long(-2) });
    expected.push(Tag { key: "c".to_string(), value: TagValue::Str("third".to_string()) });
    expected.push(Tag { key: "d".to_string(), value: TagValue::Long(i64::MAX) });
    expected.push(Tag { key: "e".to_string(), value: TagValue::Long(i64::MIN) });
    assert_eq!(records[0].tags.len(), 5 + 2);
    assert_eq!(records[0].tags, expected);
}

#[test]
fn duplicate_keys_are_all_kept() {
    let (traces_in, mut traces_out) = init(demo());
    let mut span = traces_in.span(TraceId::new(1).unwrap(), "tagged");
    span.add_string_tag("key", "one");
    span.add_string_tag("key", "two");
    span.add_int_tag("key", 3);
    span.add_string_tag("key", "one");
    span.finish();
    let records = drain(&mut traces_out);
    let mut expected = identity_tags();
    expected.push(string_tag("key", "one"));
    expected.push(string_tag("key", "two"));
    expected.push(int_tag("key", 3));
    expected.push(string_tag("key", "one"));
    assert_eq!(records[0].tags, expected);
}

#[test]
fn log_with_fields_is_appended_once() {
    let (traces_in, mut traces_out) = init(demo());
    let mut span = traces_in.span(TraceId::new(1).unwrap(), "logged");
    span.log_at(Timestamp::from_unix_nanos(5_000_999))
        .with_string("event", "retry")
        .with_int("attempt", 2)
        .with_string("event", "again")
        .finish();
    span.finish();
    let records = drain(&mut traces_out);
    assert_eq!(records.len(), 1);
    assert_eq!(
        records[0].logs,
        Some(vec![LogRecord {
            timestamp: 5_000,
            fields: vec![
                string_tag("event", "retry"),
                int_tag("attempt", 2),
                string_tag("event", "again"),
            ],
        }])
    );
    assert_eq!(records[0].tags, identity_tags());
}

#[test]
fn log_without_fields_is_still_an_entry() {
    let (traces_in, mut traces_out) = init(demo());
    let mut span = traces_in.span(TraceId::new(1).unwrap(), "logged");
    span.log_at(Timestamp::from_unix_nanos(1_000)).finish();
    span.finish();
    let records = drain(&mut traces_out);
    assert_eq!(records[0].logs, Some(vec![LogRecord { timestamp: 1, fields: vec![] }]));
}

#[test]
fn log_entries_keep_completion_order() {
    let (traces_in, mut traces_out) = init(demo());
    let mut span = traces_in.span(TraceId::new(1).unwrap(), "logged");
    span.log_at(Timestamp::from_unix_nanos(3_000)).with_int("n", 1).finish();
    span.add_string_tag("between", "logs");
    span.log_at(Timestamp::from_unix_nanos(2_000)).with_int("n", 2).finish();
    span.log_at(Timestamp::before_unix_epoch(2_000)).finish();
    span.finish();
    let records = drain(&mut traces_out);
    assert_eq!(
        records[0].logs,
        Some(vec![
            LogRecord { timestamp: 3, fields: vec![int_tag("n", 1)] },
            LogRecord { timestamp: 2, fields: vec![int_tag("n", 2)] },
            LogRecord { timestamp: 0, fields: vec![] },
        ])
    );
    assert_eq!(records[0].tags.len(), 3);
    assert_eq!(records[0].tags[2], string_tag("between", "logs"));
}

#[test]
fn log_is_stamped_by_the_clock() {
    let (traces_in, mut traces_out) = init(demo());
    let mut span = traces_in.span(TraceId::new(1).unwrap(), "logged");
    span.log().with_string("key", "value").finish();
    span.finish();
    let records = drain(&mut traces_out);
    let logs = records[0].logs.as_ref().unwrap();
    assert_eq!(logs.len(), 1);
    assert_eq!(logs[0].fields, vec![string_tag("key", "value")]);
    // Later than the first day of 2020, and not before the span began.
    assert!(logs[0].timestamp > 1_577_836_800_000_000);
    assert!(logs[0].timestamp >= records[0].start_time);
    assert!(logs[0].timestamp <= records[0].start_time + records[0].duration + 1);
}

#[test]
fn span_is_timed_by_the_clock() {
    let (traces_in, mut traces_out) = init(demo());
    traces_in.span(TraceId::new(1).unwrap(), "timed").finish();
    let records = drain(&mut traces_out);
    assert!(records[0].start_time > 1_577_836_800_000_000);
    assert!(records[0].start_time < i64::MAX);
    assert!(records[0].duration >= 0);
    assert!(records[0].duration < 60_000_000);
}

#[test]
fn span_ids_are_drawn_per_span() {
    let (traces_in, _traces_out) = init(demo());
    let first = traces_in.span(TraceId::new(1).unwrap(), "first");
    let second = traces_in.span(TraceId::new(1).unwrap(), "second");
    let third = first.child("third");
    assert_ne!(first.span_id(), second.span_id());
    assert_ne!(first.span_id(), third.span_id());
    assert_ne!(second.span_id(), third.span_id());
}

#[test]
fn full_queue_drops_the_newest_without_blocking() {
    let (traces_in, mut traces_out) = init(demo());
    let offered: usize = 3 * QUEUE_CAPACITY;
    for number in 0..offered {
        let span = traces_in.span_with(
            TraceId::new(9).unwrap(),
            number as u64 + 1,
            "burst",
            Timestamp::from_unix_nanos(0),
        );
        span.finish();
    }
    let records = drain(&mut traces_out);
    // The queue holds what it was opened for, and one more for its one sender.
    assert_eq!(records.len(), QUEUE_CAPACITY + 1);
    for (position, record) in records.iter().enumerate() {
        assert_eq!(record.span_id, position as i64 + 1);
    }
    // Room was made: the next span is taken again.
    traces_in.span_with(TraceId::new(9).unwrap(), 5_000, "after", Timestamp::from_unix_nanos(0))
        .finish();
    let later = drain(&mut traces_out);
    assert_eq!(later.len(), 1);
    assert_eq!(later[0].span_id, 5_000);
}

#[test]
fn record_is_dropped_when_the_consumer_is_gone() {
    let (traces_in, traces_out) = init(demo());
    drop(traces_out);
    let mut span = traces_in.span(TraceId::new(1).unwrap(), "unheard");
    span.add_int_tag("n", 1);
    span.finish();
    traces_in.span(TraceId::new(2).unwrap(), "unheard").finish();
}

#[test]
fn records_arrive_in_submission_order() {
    let (traces_in, mut traces_out) = init(demo());
    let first = traces_in.span(TraceId::new(1).unwrap(), "first");
    let second = traces_in.span(TraceId::new(2).unwrap(), "second");
    let third = traces_in.span(TraceId::new(3).unwrap(), "third");
    second.finish();
    third.finish();
    first.finish();
    let names: Vec<String> =
        drain(&mut traces_out).into_iter().map(|record| record.operation_name).collect();
    assert_eq!(names, vec!["second", "third", "first"]);
}

#[test]
fn queue_ends_when_every_producer_is_gone() {
    let (traces_in, mut traces_out) = init(demo());
    let span = traces_in.span(TraceId::new(1).unwrap(), "last");
    drop(traces_in);
    // The span still holds the handle: the queue is open.
    assert_eq!(traces_out.receiver().try_recv(), Err(TryRecvError::Empty));
    span.finish();
    assert_eq!(traces_out.receiver().try_recv().unwrap().operation_name, "last");
    assert_eq!(traces_out.receiver().try_recv(), Err(TryRecvError::Closed));
}
