use console_subscriber::ingress::{decide_send, flush_threshold, TrySend, DEFAULT_EVENT_BUFFER_CAPACITY};
use console_subscriber::poll::{elapsed_nanos, total_time, PollStats};
use console_subscriber::records::{Field, FieldName, FieldValue};
use console_subscriber::stats::{update_attribute, Attribute, AttributeUpdate, UpdateOp};
use tokio::sync::mpsc;

fn attr(value: FieldValue) -> Attribute {
    Attribute { field: Field { name: FieldName::Index(0), value: Some(value), meta_id: 1 }, unit: None }
}

fn upd(value: FieldValue, op: UpdateOp) -> AttributeUpdate {
    AttributeUpdate { field: Field { name: FieldName::Index(0), value: Some(value), meta_id: 1 }, op, unit: None }
}

#[test]
fn total_time_needs_both_ends() {
    assert_eq!(total_time(Some(10), Some(25)), Some(15));
    assert_eq!(total_time(None, Some(25)), None);
    assert_eq!(total_time(Some(10), None), None);
    assert_eq!(total_time(Some(30), Some(25)), None);
}

#[test]
fn clock_skew_counts_as_zero() {
    assert_eq!(elapsed_nanos(10, 4), 0);
    assert_eq!(elapsed_nanos(4, 10), 6);
    let mut s = PollStats::new();
    s.update_on_span_enter(100);
    s.update_on_span_exit(90);
    assert_eq!(s.busy_time, 0);
    assert_eq!(s.last_poll_ended, Some(90));
}

#[test]
fn poll_stats_enter_exit() {
    let mut s = PollStats::new();
    assert_eq!(s.since_last_poll(5), None);
    s.update_on_span_enter(10);
    s.update_on_span_enter(12);
    assert_eq!(s.current_polls, 2);
    assert_eq!(s.polls, 1);
    s.update_on_span_exit(15);
    assert_eq!(s.busy_time, 0);
    s.update_on_span_exit(20);
    assert_eq!(s.busy_time, 10);
    assert_eq!(s.since_last_poll(25), Some(15));
    s.update_on_span_enter(30);
    assert_eq!(s.first_poll, Some(10));
    assert_eq!(s.last_poll_started, Some(30));
    assert_eq!(s.polls, 2);
    let p = s.to_proto();
    assert_eq!(p.polls, 2);
    assert_eq!(p.busy_time, 10);
}

#[test]
fn u64_attribute_wraps() {
    let mut a = attr(FieldValue::U64(3));
    update_attribute(&mut a, upd(FieldValue::U64(5), UpdateOp::Sub));
    assert!(matches!(a.field.value, Some(FieldValue::U64(v)) if v == u64::MAX - 1));
    update_attribute(&mut a, upd(FieldValue::U64(4), UpdateOp::Add));
    assert!(matches!(a.field.value, Some(FieldValue::U64(2))));
}

#[test]
fn i64_attribute_ops() {
    let mut a = attr(FieldValue::I64(-3));
    update_attribute(&mut a, upd(FieldValue::I64(5), UpdateOp::Add));
    assert!(matches!(a.field.value, Some(FieldValue::I64(2))));
    update_attribute(&mut a, upd(FieldValue::I64(7), UpdateOp::Sub));
    assert!(matches!(a.field.value, Some(FieldValue::I64(-5))));
    update_attribute(&mut a, upd(FieldValue::I64(9), UpdateOp::Override));
    assert!(matches!(a.field.value, Some(FieldValue::I64(9))));
}

#[test]
fn text_and_bool_attributes_are_replaced() {
    let mut a = attr(FieldValue::Str("old".to_string()));
    update_attribute(&mut a, upd(FieldValue::Str("new".to_string()), UpdateOp::Add));
    assert!(matches!(&a.field.value, Some(FieldValue::Str(s)) if s == "new"));
    let mut d = attr(FieldValue::Debug("x".to_string()));
    update_attribute(&mut d, upd(FieldValue::Debug("y".to_string()), UpdateOp::Override));
    assert!(matches!(&d.field.value, Some(FieldValue::Debug(s)) if s == "y"));
    let mut b = attr(FieldValue::Bool(false));
    update_attribute(&mut b, upd(FieldValue::Bool(true), UpdateOp::Sub));
    assert!(matches!(b.field.value, Some(FieldValue::Bool(true))));
}

#[test]
fn mismatched_attribute_is_unchanged() {
    let mut a = attr(FieldValue::U64(3));
    update_attribute(&mut a, upd(FieldValue::I64(5), UpdateOp::Add));
    assert!(matches!(a.field.value, Some(FieldValue::U64(3))));
}

#[test]
fn capacity_shedding() {
    let capacity = 8;
    let threshold = flush_threshold(capacity);
    assert_eq!(threshold, 4);
    assert_eq!(flush_threshold(DEFAULT_EVENT_BUFFER_CAPACITY), 51200);
    let (tx, _rx) = mpsc::channel::<u32>(capacity);
    let mut dropped = 0;
    let mut triggered = false;
    let mut triggered_at = None;
    for k in 0..(capacity + 10) {
        let result = match tx.try_reserve() {
            Ok(permit) => {
                permit.send(k as u32);
                TrySend::Sent
            }
            Err(mpsc::error::TrySendError::Full(())) => TrySend::Full,
            Err(mpsc::error::TrySendError::Closed(())) => TrySend::Closed,
        };
        let decision = decide_send(result, tx.capacity(), threshold);
        if decision.count_drop {
            dropped += 1;
        }
        if decision.trigger_flush && !triggered {
            triggered = true;
            triggered_at = Some(k);
        }
    }
    assert_eq!(dropped, 10);
    assert!(triggered);
    assert_eq!(triggered_at, Some(3));
}

#[test]
fn closed_channel_is_skipped_silently() {
    let d = decide_send(TrySend::Closed, 100, 4);
    assert!(!d.sent);
    assert!(!d.count_drop);
    assert!(!d.trigger_flush);
}
