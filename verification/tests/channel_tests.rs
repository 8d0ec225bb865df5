use capture_pipeline::channel::ChannelEvent;
use capture_pipeline::channel::LogChannel;
use capture_pipeline::record::LogRecord;
use capture_pipeline::record::Source;

fn record(tag: Source, stamp: &str, text: &str) -> LogRecord {
    LogRecord { timestamp: String::from(stamp), source: tag, text: String::from(text) }
}

fn expect_record(ev: Option<ChannelEvent>) -> LogRecord {
    match ev {
        Some(ChannelEvent::Record(r)) => r,
        other => panic!("expected a record, got {:?}", event_name(&other)),
    }
}

fn event_name(ev: &Option<ChannelEvent>) -> &'static str {
    match ev {
        Some(ChannelEvent::Record(_)) => "record",
        Some(ChannelEvent::Lagged(_)) => "lagged",
        None => "none",
    }
}

#[test]
fn emit_appends_to_the_durable_log() {
    let mut c = LogChannel::new(100);
    assert_eq!(c.log_len(), 0);
    c.emit(record(Source::Capture, "t0", "one"));
    c.emit(record(Source::Assistant, "t1", "two"));
    assert_eq!(c.log_len(), 2);
    assert_eq!(c.record(0).text, "one");
    assert_eq!(c.record(0).source, Source::Capture);
    assert_eq!(c.record(1).text, "two");
    assert_eq!(c.record(1).source, Source::Assistant);
}

#[test]
fn subscriber_sees_records_in_order() {
    let mut c = LogChannel::new(100);
    let a = c.subscribe();
    c.emit(record(Source::Capture, "t0", "one"));
    c.emit(record(Source::Assistant, "t1", "two"));
    let r1 = expect_record(c.next_event(a));
    assert_eq!(r1.text, "one");
    let r2 = expect_record(c.next_event(a));
    assert_eq!(r2.text, "two");
    assert!(c.next_event(a).is_none());
}

#[test]
fn late_joiner_never_sees_earlier_records() {
    let mut c = LogChannel::new(100);
    let early = c.subscribe();
    c.emit(record(Source::Capture, "t0", "before"));
    let late = c.subscribe();
    c.emit(record(Source::Assistant, "t1", "after"));

    let r1 = expect_record(c.next_event(early));
    assert_eq!(r1.text, "before");
    let r2 = expect_record(c.next_event(early));
    assert_eq!(r2.text, "after");
    assert!(c.next_event(early).is_none());

    let r3 = expect_record(c.next_event(late));
    assert_eq!(r3.text, "after");
    assert!(c.next_event(late).is_none());
}

#[test]
fn observed_record_already_stands_in_the_log() {
    let mut c = LogChannel::new(100);
    let a = c.subscribe();
    c.emit(record(Source::Capture, "t0", "logged first"));
    let r = expect_record(c.next_event(a));
    let mut found = false;
    for i in 0..c.log_len() {
        let logged = c.record(i);
        if logged.timestamp == r.timestamp && logged.source == r.source && logged.text == r.text {
            found = true;
        }
    }
    assert!(found);
}

#[test]
fn slow_subscriber_observes_a_gap_not_a_stall() {
    let mut c = LogChannel::new(2);
    let a = c.subscribe();
    c.emit(record(Source::Capture, "t0", "one"));
    c.emit(record(Source::Capture, "t1", "two"));
    c.emit(record(Source::Capture, "t2", "three"));
    c.emit(record(Source::Capture, "t3", "four"));
    assert_eq!(c.log_len(), 4);

    match c.next_event(a) {
        Some(ChannelEvent::Lagged(n)) => assert_eq!(n, 2),
        other => panic!("expected a gap, got {}", event_name(&other)),
    }
    let r = expect_record(c.next_event(a));
    assert_eq!(r.text, "three");
    let r = expect_record(c.next_event(a));
    assert_eq!(r.text, "four");
    assert!(c.next_event(a).is_none());
}

#[test]
fn fresh_subscriber_has_no_events() {
    let mut c = LogChannel::new(100);
    let a = c.subscribe();
    assert!(c.next_event(a).is_none());
}
