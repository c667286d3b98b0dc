use console_subscriber::aggregator::{after_wake, Aggregator, DetailWatch, Event, InstrumentUpdate, TaskDetails, Wake};
use console_subscriber::records::{Field, FieldName, FieldValue, Level, Metadata, Readiness, ResourceKind};
use console_subscriber::stats::{AttributeUpdate, UpdateOp, WakeOp};
use hdrhistogram::serialization::Deserializer;
use hdrhistogram::Histogram;
use tokio::sync::mpsc;

const MS: u64 = 1_000_000;
const T0: u64 = 1_700_000_000_000_000_000;

fn meta(id: u64) -> Metadata {
    Metadata {
        id,
        name: "runtime.spawn".to_string(),
        target: "tokio::task".to_string(),
        level: Level::Trace,
        is_span: true,
        file: Some("src/lib.rs".to_string()),
        line: Some(12),
        field_names: vec!["kind".to_string()],
    }
}

fn spawn(agg: &mut Aggregator, id: u64, at: u64) {
    agg.update_state(Event::Spawn { id, metadata: 7, at, fields: Vec::new() });
}

fn watcher(agg: &mut Aggregator, now: u64) -> mpsc::Receiver<InstrumentUpdate> {
    let (tx, rx) = mpsc::channel(16);
    assert!(agg.add_instrument_subscription(tx, now).added);
    rx
}

fn histogram_of(agg: &Aggregator, id: u64, now: u64) -> Histogram<u64> {
    let details = agg.task_details(id, now).expect("task is known");
    let bytes = details.poll_times_histogram.expect("histogram encodes");
    Deserializer::new().deserialize(&mut &bytes[..]).unwrap()
}

fn resource_event(id: u64, at: u64) -> Event {
    Event::Resource {
        id,
        metadata: 3,
        at,
        concrete_type: "Sleep".to_string(),
        kind: ResourceKind::Known(0),
        is_internal: false,
        inherit_child_attrs: false,
    }
}

fn u64_update(value: u64, op: UpdateOp) -> AttributeUpdate {
    AttributeUpdate {
        field: Field { name: FieldName::Str("permits".to_string()), value: Some(FieldValue::U64(value)), meta_id: 9 },
        op,
        unit: Some("permits".to_string()),
    }
}

#[test]
fn spawn_poll_close_publishes_task() {
    let mut agg = Aggregator::new(1_000 * MS, 3_600_000 * MS);
    let mut rx = watcher(&mut agg, T0);
    let _initial = rx.try_recv().unwrap();
    agg.update_state(Event::Metadata(meta(7)));
    spawn(&mut agg, 1, T0);
    agg.update_state(Event::Enter { id: 1, at: T0 + MS });
    agg.update_state(Event::Exit { id: 1, at: T0 + 3 * MS });
    agg.update_state(Event::Close { id: 1, at: T0 + 5 * MS });
    let hist = histogram_of(&agg, 1, T0 + 6 * MS);
    assert_eq!(hist.len(), 1);
    assert!(hist.equivalent(hist.max(), 2_000_000));

    let update = agg.publish(T0 + 6 * MS).update;
    let received = rx.try_recv().unwrap();
    assert_eq!(received.now, T0 + 6 * MS);
    assert_eq!(update.task_update.new_tasks.len(), 1);
    assert_eq!(update.task_update.new_tasks[0].id, 1);
    assert_eq!(update.new_metadata.as_ref().map(|m| m.len()), Some(1));
    let (id, stats) = update.task_update.stats_update[0];
    assert_eq!(id, 1);
    assert_eq!(stats.poll_stats.polls, 1);
    assert_eq!(stats.poll_stats.busy_time, 2 * MS);
    assert_eq!(stats.created_at, Some(T0));
    assert_eq!(stats.total_time, Some(5 * MS));
    let closed = agg.task_stats.get(1).unwrap().closed_at;
    assert_eq!(closed, Some(T0 + 5 * MS));
}

#[test]
fn nested_enter_counts_one_poll() {
    let mut agg = Aggregator::new(1_000 * MS, 3_600_000 * MS);
    spawn(&mut agg, 1, T0);
    agg.update_state(Event::Enter { id: 1, at: T0 });
    agg.update_state(Event::Enter { id: 1, at: T0 + MS });
    agg.update_state(Event::Exit { id: 1, at: T0 + 2 * MS });
    assert_eq!(histogram_of(&agg, 1, T0 + 3 * MS).len(), 0);
    agg.update_state(Event::Exit { id: 1, at: T0 + 5 * MS });
    let stats = agg.task_stats.get(1).unwrap();
    assert_eq!(stats.poll_stats.polls, 1);
    assert_eq!(stats.poll_stats.current_polls, 0);
    assert_eq!(stats.poll_stats.busy_time, 5 * MS);
    let hist = histogram_of(&agg, 1, T0 + 6 * MS);
    assert_eq!(hist.len(), 1);
    assert!(hist.equivalent(hist.max(), 5 * MS));
}

#[test]
fn reentering_n_times_counts_one_poll() {
    let mut agg = Aggregator::new(1_000 * MS, 3_600_000 * MS);
    spawn(&mut agg, 4, T0);
    for k in 0..5 {
        agg.update_state(Event::Enter { id: 4, at: T0 + k });
    }
    for k in 0..5 {
        agg.update_state(Event::Exit { id: 4, at: T0 + 10 + k });
    }
    let stats = agg.task_stats.get(4).unwrap();
    assert_eq!(stats.poll_stats.current_polls, 0);
    assert_eq!(stats.poll_stats.polls, 1);
    assert_eq!(stats.poll_stats.first_poll, Some(T0));
    assert_eq!(stats.poll_stats.last_poll_ended, Some(T0 + 14));
}

#[test]
fn polls_count_each_outermost_enter() {
    let mut agg = Aggregator::new(1_000 * MS, 3_600_000 * MS);
    spawn(&mut agg, 2, T0);
    for k in 0..3u64 {
        agg.update_state(Event::Enter { id: 2, at: T0 + 10 * k * MS });
        agg.update_state(Event::Enter { id: 2, at: T0 + (10 * k + 1) * MS });
        agg.update_state(Event::Exit { id: 2, at: T0 + (10 * k + 2) * MS });
        agg.update_state(Event::Exit { id: 2, at: T0 + (10 * k + 4) * MS });
    }
    let stats = agg.task_stats.get(2).unwrap();
    assert_eq!(stats.poll_stats.polls, 3);
    assert_eq!(stats.poll_stats.busy_time, 12 * MS);
    assert_eq!(histogram_of(&agg, 2, T0 + 40 * MS).len(), 3);
}

#[test]
fn unmatched_exit_is_ignored() {
    let mut agg = Aggregator::new(1_000 * MS, 3_600_000 * MS);
    spawn(&mut agg, 2, T0);
    agg.update_state(Event::Exit { id: 2, at: T0 + MS });
    let stats = agg.task_stats.get(2).unwrap();
    assert_eq!(stats.poll_stats.current_polls, 0);
    assert_eq!(stats.poll_stats.busy_time, 0);
}

#[test]
fn waker_accounting() {
    let mut agg = Aggregator::new(1_000 * MS, 3_600_000 * MS);
    spawn(&mut agg, 1, T0);
    agg.update_state(Event::Waker { id: 1, op: WakeOp::Clone, at: T0 + 1 });
    agg.update_state(Event::Waker { id: 1, op: WakeOp::Clone, at: T0 + 2 });
    agg.update_state(Event::Waker { id: 1, op: WakeOp::Wake { self_wake: false }, at: T0 + 3 });
    agg.update_state(Event::Waker { id: 1, op: WakeOp::WakeByRef { self_wake: true }, at: T0 + 4 });
    agg.update_state(Event::Waker { id: 1, op: WakeOp::Drop, at: T0 + 5 });
    let stats = agg.task_stats.get(1).unwrap();
    assert_eq!(stats.waker_clones, 2);
    assert_eq!(stats.waker_drops, 2);
    assert_eq!(stats.wakes, 2);
    assert_eq!(stats.last_wake, Some(T0 + 4));
}

#[test]
fn live_wakers_never_negative() {
    let mut agg = Aggregator::new(1_000 * MS, 3_600_000 * MS);
    spawn(&mut agg, 1, T0);
    let ops = [WakeOp::Clone, WakeOp::Clone, WakeOp::Drop, WakeOp::Clone, WakeOp::Wake { self_wake: false }];
    let mut live: i64 = 0;
    for (k, op) in ops.iter().enumerate() {
        agg.update_state(Event::Waker { id: 1, op: *op, at: T0 + k as u64 });
        live += match op {
            WakeOp::Clone => 1,
            WakeOp::WakeByRef { .. } => 0,
            _ => -1,
        };
        let stats = agg.task_stats.get(1).unwrap();
        assert!(stats.waker_clones >= stats.waker_drops);
        assert_eq!(stats.waker_clones as i64 - stats.waker_drops as i64, live);
    }
}

#[test]
fn waker_for_unknown_task_is_ignored() {
    let mut agg = Aggregator::new(1_000 * MS, 3_600_000 * MS);
    agg.update_state(Event::Waker { id: 9, op: WakeOp::Clone, at: T0 });
    assert_eq!(agg.task_stats.len(), 0);
}

#[test]
fn wake_op_kinds() {
    assert!(WakeOp::Wake { self_wake: false }.is_wake());
    assert!(WakeOp::WakeByRef { self_wake: false }.is_wake());
    assert!(!WakeOp::Clone.is_wake());
    assert!(!WakeOp::Drop.is_wake());
    assert_eq!(WakeOp::Wake { self_wake: false }.self_wake(true), WakeOp::Wake { self_wake: true });
    assert_eq!(WakeOp::WakeByRef { self_wake: true }.self_wake(false), WakeOp::WakeByRef { self_wake: false });
    assert_eq!(WakeOp::Drop.self_wake(true), WakeOp::Drop);
}

#[test]
fn second_publish_is_empty() {
    let mut agg = Aggregator::new(1_000 * MS, 3_600_000 * MS);
    let mut rx = watcher(&mut agg, T0);
    agg.update_state(Event::Metadata(meta(7)));
    spawn(&mut agg, 1, T0);
    agg.update_state(resource_event(2, T0));
    agg.update_state(Event::PollOp {
        metadata: 3,
        at: T0 + 1,
        resource_id: 2,
        op_name: "poll_elapsed".to_string(),
        async_op_id: 5,
        task_id: 1,
        readiness: Readiness::Pending,
    });
    let first = agg.publish(T0 + MS).update;
    assert_eq!(first.task_update.new_tasks.len(), 1);
    assert_eq!(first.resource_update.new_poll_ops.len(), 1);
    assert_eq!(first.async_op_update.stats_update.len(), 1);
    let second = agg.publish(T0 + 2 * MS).update;
    assert!(second.new_metadata.is_none());
    assert!(second.task_update.new_tasks.is_empty());
    assert!(second.task_update.stats_update.is_empty());
    assert!(second.resource_update.new_resources.is_empty());
    assert!(second.resource_update.stats_update.is_empty());
    assert!(second.resource_update.new_poll_ops.is_empty());
    assert!(second.async_op_update.stats_update.is_empty());
    let _initial = rx.try_recv().unwrap();
    let _first = rx.try_recv().unwrap();
    let got = rx.try_recv().unwrap();
    assert!(got.task_update.new_tasks.is_empty());
}

#[test]
fn dirty_entities_handed_out_once() {
    let mut agg = Aggregator::new(1_000 * MS, 3_600_000 * MS);
    spawn(&mut agg, 1, T0);
    spawn(&mut agg, 2, T0);
    assert_eq!(agg.tasks.since_last_update().len(), 2);
    assert_eq!(agg.tasks.since_last_update().len(), 0);
    agg.update_state(Event::Enter { id: 2, at: T0 + 1 });
    let stats = agg.publish(T0 + 2).update.task_update.stats_update;
    assert_eq!(stats.len(), 2);
    agg.update_state(Event::Enter { id: 2, at: T0 + 3 });
    let stats = agg.publish(T0 + 4).update.task_update.stats_update;
    assert_eq!(stats.len(), 1);
    assert_eq!(stats[0].0, 2);
}

#[test]
fn every_subscriber_gets_the_dirty_entities() {
    let mut agg = Aggregator::new(1_000 * MS, 3_600_000 * MS);
    let mut first = watcher(&mut agg, T0);
    let mut second = watcher(&mut agg, T0);
    let _ = first.try_recv().unwrap();
    let _ = second.try_recv().unwrap();
    spawn(&mut agg, 1, T0 + 1);
    spawn(&mut agg, 2, T0 + 2);
    agg.publish(T0 + MS);
    for rx in [&mut first, &mut second] {
        let update = rx.try_recv().unwrap();
        let ids: Vec<u64> = update.task_update.new_tasks.iter().map(|t| t.id).collect();
        assert_eq!(ids, vec![1, 2]);
        assert!(rx.try_recv().is_err());
    }
}

#[test]
fn slow_subscriber_is_evicted() {
    let mut agg = Aggregator::new(1_000 * MS, 3_600_000 * MS);
    let (slow_tx, mut slow_rx) = mpsc::channel(1);
    assert!(agg.add_instrument_subscription(slow_tx, T0).added);
    let mut fast = watcher(&mut agg, T0);
    assert_eq!(agg.watchers.len(), 2);
    spawn(&mut agg, 1, T0);
    let published = agg.publish(T0 + MS);
    assert_eq!(published.delivered, vec![false, true]);
    assert_eq!(agg.watchers.len(), 1);
    let _initial = fast.try_recv().unwrap();
    assert_eq!(fast.try_recv().unwrap().task_update.new_tasks.len(), 1);
    let _initial = slow_rx.try_recv().unwrap();
    assert!(slow_rx.try_recv().is_err());
}

#[test]
fn closed_subscriber_is_not_added() {
    let mut agg = Aggregator::new(1_000 * MS, 3_600_000 * MS);
    let (tx, rx) = mpsc::channel(4);
    drop(rx);
    assert!(!agg.add_instrument_subscription(tx, T0).added);
    assert!(agg.watchers.is_empty());
}

#[test]
fn initial_snapshot_keeps_dirty_bits() {
    let mut agg = Aggregator::new(1_000 * MS, 3_600_000 * MS);
    agg.update_state(Event::Metadata(meta(7)));
    spawn(&mut agg, 1, T0);
    let mut rx = watcher(&mut agg, T0 + 1);
    let initial = rx.try_recv().unwrap();
    assert_eq!(initial.task_update.new_tasks.len(), 1);
    assert_eq!(initial.new_metadata.map(|m| m.len()), Some(1));
    let update = agg.publish(T0 + 2).update;
    assert_eq!(update.task_update.new_tasks.len(), 1);
}

#[test]
fn retention_drop_with_watchers() {
    let second = 1_000 * MS;
    let mut agg = Aggregator::new(second, second);
    let mut rx = watcher(&mut agg, T0);
    spawn(&mut agg, 1, T0 - second);
    agg.update_state(Event::Close { id: 1, at: T0 });
    agg.cleanup_closed(T0 + 2 * second);
    assert!(agg.task_stats.get(1).is_some());
    assert!(agg.tasks.get(1).is_some());
    agg.publish(T0 + 2 * second);
    let _ = rx.try_recv().unwrap();
    agg.cleanup_closed(T0 + 2 * second + MS);
    assert!(agg.task_stats.get(1).is_none());
    assert!(agg.tasks.get(1).is_none());
}

#[test]
fn retention_drop_without_watchers() {
    let second = 1_000 * MS;
    let mut agg = Aggregator::new(second, second);
    spawn(&mut agg, 1, T0 - second);
    agg.update_state(Event::Close { id: 1, at: T0 });
    agg.cleanup_closed(T0 + second);
    assert!(agg.task_stats.get(1).is_some());
    agg.cleanup_closed(T0 + second + 1);
    assert!(agg.task_stats.get(1).is_none());
    assert!(agg.tasks.get(1).is_none());
}

#[test]
fn open_entities_are_kept() {
    let mut agg = Aggregator::new(1_000 * MS, 0);
    spawn(&mut agg, 1, T0);
    agg.update_state(resource_event(2, T0));
    agg.cleanup_closed(u64::MAX);
    assert!(agg.tasks.get(1).is_some());
    assert!(agg.resources.get(2).is_some());
}

#[test]
fn publish_and_cleanup_only_publishes_when_due() {
    let mut agg = Aggregator::new(1_000 * MS, 1_000 * MS);
    spawn(&mut agg, 1, T0);
    assert!(agg.publish_and_cleanup(true, T0 + 1).is_none());
    let mut rx = watcher(&mut agg, T0 + 2);
    let _ = rx.try_recv().unwrap();
    assert!(agg.publish_and_cleanup(false, T0 + 3).is_none());
    assert!(rx.try_recv().is_err());
    let update = agg.publish_and_cleanup(true, T0 + 4).unwrap().update;
    assert_eq!(update.task_update.new_tasks.len(), 1);
    assert_eq!(rx.try_recv().unwrap().now, T0 + 4);
}

#[test]
fn task_detail_subscription() {
    let mut agg = Aggregator::new(1_000 * MS, 3_600_000 * MS);
    let (tx, _rx) = mpsc::channel::<TaskDetails>(4);
    assert_eq!(agg.add_task_detail_subscription(1, tx, T0), DetailWatch::NotFound);
    spawn(&mut agg, 1, T0);
    let (tx, mut rx) = mpsc::channel::<TaskDetails>(4);
    assert_eq!(agg.add_task_detail_subscription(1, tx, T0), DetailWatch::Watching);
    let first = rx.try_recv().unwrap();
    assert_eq!(first.task_id, 1);
    assert_eq!(first.now, T0);
    assert!(first.poll_times_histogram.is_some());
    agg.publish(T0 + MS);
    assert_eq!(rx.try_recv().unwrap().now, T0 + MS);
    let (tx, rx) = mpsc::channel::<TaskDetails>(4);
    drop(rx);
    assert_eq!(agg.add_task_detail_subscription(1, tx, T0), DetailWatch::Closed);
    assert_eq!(agg.details_watchers.len(), 1);
}

#[test]
fn detail_watchers_of_dropped_task_are_removed() {
    let mut agg = Aggregator::new(1_000 * MS, 0);
    spawn(&mut agg, 1, T0);
    let (tx, _rx) = mpsc::channel::<TaskDetails>(4);
    assert_eq!(agg.add_task_detail_subscription(1, tx, T0), DetailWatch::Watching);
    agg.update_state(Event::Close { id: 1, at: T0 + 1 });
    agg.cleanup_closed(T0 + 10);
    agg.publish(T0 + 11);
    assert!(agg.details_watchers.is_empty());
}

#[test]
fn poll_op_creates_async_op_stats() {
    let mut agg = Aggregator::new(1_000 * MS, 3_600_000 * MS);
    for (k, readiness) in [Readiness::Ready, Readiness::Pending, Readiness::Pending].into_iter().enumerate() {
        agg.update_state(Event::PollOp {
            metadata: 3,
            at: T0 + k as u64,
            resource_id: 2 + k as u64,
            op_name: "poll_acquire".to_string(),
            async_op_id: 5,
            task_id: 1 + k as u64,
            readiness,
        });
    }
    let stats = agg.async_op_stats.get(5).unwrap();
    assert_eq!(stats.poll_stats.polls, 3);
    assert_eq!(stats.poll_stats.first_poll, Some(T0 + 1));
    assert_eq!(stats.task_id, Some(1));
    assert_eq!(stats.resource_id, Some(2));
    assert_eq!(agg.all_poll_ops.len(), 3);
    assert_eq!(agg.new_poll_ops.len(), 3);
}

#[test]
fn async_op_enter_exit_and_close() {
    let mut agg = Aggregator::new(1_000 * MS, 3_600_000 * MS);
    agg.update_state(Event::AsyncResourceOp { id: 8, metadata: 4, at: T0, source: "Sleep::new".to_string() });
    agg.update_state(Event::Enter { id: 8, at: T0 + MS });
    agg.update_state(Event::Exit { id: 8, at: T0 + 4 * MS });
    agg.update_state(Event::Close { id: 8, at: T0 + 6 * MS });
    let stats = agg.async_op_stats.get(8).unwrap();
    assert_eq!(stats.poll_stats.polls, 1);
    assert_eq!(stats.poll_stats.busy_time, 3 * MS);
    assert_eq!(stats.closed_at, Some(T0 + 6 * MS));
    let update = agg.publish(T0 + 7 * MS).update;
    assert_eq!(update.async_op_update.new_async_ops[0].source, "Sleep::new");
    assert_eq!(update.async_op_update.stats_update[0].1.total_time, Some(6 * MS));
}

#[test]
fn state_updates_apply_to_attributes() {
    let mut agg = Aggregator::new(1_000 * MS, 3_600_000 * MS);
    agg.update_state(resource_event(2, T0));
    agg.update_state(Event::StateUpdate { resource_id: 2, update: u64_update(10, UpdateOp::Override) });
    agg.update_state(Event::StateUpdate { resource_id: 2, update: u64_update(5, UpdateOp::Add) });
    agg.update_state(Event::StateUpdate { resource_id: 2, update: u64_update(3, UpdateOp::Sub) });
    let attrs = &agg.resource_stats.get(2).unwrap().attributes;
    assert_eq!(attrs.len(), 1);
    assert!(matches!(attrs[0].field.value, Some(FieldValue::U64(12))));
    assert_eq!(attrs[0].unit.as_deref(), Some("permits"));
    let mismatched = AttributeUpdate {
        field: Field { name: FieldName::Str("permits".to_string()), value: Some(FieldValue::Bool(true)), meta_id: 9 },
        op: UpdateOp::Override,
        unit: None,
    };
    agg.update_state(Event::StateUpdate { resource_id: 2, update: mismatched });
    let attrs = &agg.resource_stats.get(2).unwrap().attributes;
    assert!(matches!(attrs[0].field.value, Some(FieldValue::U64(12))));
    let other = AttributeUpdate {
        field: Field { name: FieldName::Str("closed".to_string()), value: Some(FieldValue::Bool(false)), meta_id: 9 },
        op: UpdateOp::Override,
        unit: None,
    };
    agg.update_state(Event::StateUpdate { resource_id: 2, update: other });
    assert_eq!(agg.resource_stats.get(2).unwrap().attributes.len(), 2);
}

#[test]
fn state_update_for_unknown_resource_is_ignored() {
    let mut agg = Aggregator::new(1_000 * MS, 3_600_000 * MS);
    agg.update_state(Event::StateUpdate { resource_id: 2, update: u64_update(1, UpdateOp::Add) });
    assert_eq!(agg.resource_stats.len(), 0);
}

#[test]
fn respawn_replaces_entry() {
    let mut agg = Aggregator::new(1_000 * MS, 3_600_000 * MS);
    spawn(&mut agg, 1, T0);
    agg.update_state(Event::Enter { id: 1, at: T0 + 1 });
    spawn(&mut agg, 1, T0 + 5);
    assert_eq!(agg.tasks.len(), 1);
    let stats = agg.task_stats.get(1).unwrap();
    assert_eq!(stats.created_at, Some(T0 + 5));
    assert_eq!(stats.poll_stats.polls, 0);
}

#[test]
fn second_close_keeps_first_time() {
    let mut agg = Aggregator::new(1_000 * MS, 3_600_000 * MS);
    spawn(&mut agg, 1, T0);
    agg.update_state(resource_event(2, T0));
    agg.update_state(Event::AsyncResourceOp { id: 3, metadata: 4, at: T0, source: "op".to_string() });
    for id in 1..=3 {
        agg.update_state(Event::Close { id, at: T0 + MS });
        agg.update_state(Event::Close { id, at: T0 + 9 * MS });
    }
    assert_eq!(agg.task_stats.get(1).unwrap().closed_at, Some(T0 + MS));
    assert_eq!(agg.resource_stats.get(2).unwrap().closed_at, Some(T0 + MS));
    assert_eq!(agg.async_op_stats.get(3).unwrap().closed_at, Some(T0 + MS));
}

#[test]
fn detail_watchers_keep_those_that_took_details() {
    let mut agg = Aggregator::new(1_000 * MS, 3_600_000 * MS);
    spawn(&mut agg, 1, T0);
    let (full_tx, _full_rx) = mpsc::channel::<TaskDetails>(1);
    let (ok_tx, mut ok_rx) = mpsc::channel::<TaskDetails>(4);
    assert_eq!(agg.add_task_detail_subscription(1, full_tx, T0), DetailWatch::Watching);
    assert_eq!(agg.add_task_detail_subscription(1, ok_tx, T0), DetailWatch::Watching);
    assert_eq!(agg.details_watchers.len(), 1);
    assert_eq!(agg.details_watchers[0].1.len(), 2);
    let published = agg.publish(T0 + MS);
    assert_eq!(published.details_delivered, vec![vec![false, true]]);
    assert_eq!(agg.details_watchers[0].1.len(), 1);
    let _first = ok_rx.try_recv().unwrap();
    assert_eq!(ok_rx.try_recv().unwrap().task_id, 1);
}

#[test]
fn only_the_tick_publishes() {
    assert_eq!(after_wake(Wake::PublishTick), Some(true));
    assert_eq!(after_wake(Wake::FlushRequested), Some(false));
    assert_eq!(after_wake(Wake::Command), Some(false));
    assert_eq!(after_wake(Wake::CommandsClosed), None);
}
