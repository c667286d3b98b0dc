//! The aggregator: the single owner of all entity state. It applies events,
//! publishes deltas to subscribers, and drops closed entities after their
//! retention period.
use vstd::prelude::*;
use tokio::sync::mpsc::Sender;
use crate::channel::{deliver_to_all, kept_by, try_deliver};
use crate::id_data::{
    all_pairs, all_views, cleared, dirty_pairs, lemma_dirty_views_of_pairs, lemma_updates_handed_out_once,
    lemma_written_row_handed_out, dirty_views, has_id, index_of, out_views,
    pair_views, retained, unique_ids, updated_by, value_of, with_default, with_insert,
    with_stats_in, with_update, Entry, IdData, Include,
};
use crate::histogram::{bytes_view, v2_encoding};
use crate::records::{
    duplicate_metadata_list, duplicate_poll_ops, meta_views, AsyncOp, Field, Metadata, PollOp,
    Readiness, Resource, ResourceKind, Task,
};
use crate::stats::{
    attributes_updated, close_once, first_close, AsyncOpStats, AsyncOpStatsUpdate, AttributeUpdate, ResourceStats,
    ResourceStatsUpdate, TaskStats, TaskStatsUpdate, WakeOp,
};

verus! {

/// An event emitted by the instrumentation, with span ids and timestamps in
/// nanoseconds since the Unix epoch.
#[derive(Debug)]
pub enum Event {
    Metadata(Metadata),
    Spawn { id: u64, metadata: u64, at: u64, fields: Vec<Field> },
    Enter { id: u64, at: u64 },
    Exit { id: u64, at: u64 },
    Close { id: u64, at: u64 },
    Waker { id: u64, op: WakeOp, at: u64 },
    Resource {
        id: u64,
        metadata: u64,
        at: u64,
        concrete_type: String,
        kind: ResourceKind,
        is_internal: bool,
        inherit_child_attrs: bool,
    },
    PollOp {
        metadata: u64,
        at: u64,
        resource_id: u64,
        op_name: String,
        async_op_id: u64,
        task_id: u64,
        readiness: Readiness,
    },
    StateUpdate { resource_id: u64, update: AttributeUpdate },
    AsyncResourceOp { id: u64, metadata: u64, at: u64, source: String },
}

#[derive(Clone, Debug)]
pub struct TaskUpdate {
    pub new_tasks: Vec<Task>,
    pub stats_update: Vec<(u64, TaskStatsUpdate)>,
}

#[derive(Clone, Debug)]
pub struct ResourceUpdate {
    pub new_resources: Vec<Resource>,
    pub stats_update: Vec<(u64, ResourceStatsUpdate)>,
    pub new_poll_ops: Vec<PollOp>,
}

#[derive(Clone, Debug)]
pub struct AsyncOpUpdate {
    pub new_async_ops: Vec<AsyncOp>,
    pub stats_update: Vec<(u64, AsyncOpStatsUpdate)>,
}

/// One message of the instrument stream.
#[derive(Clone, Debug)]
pub struct InstrumentUpdate {
    pub now: u64,
    /// Metadata registered since the last update; absent when there is none.
    pub new_metadata: Option<Vec<Metadata>>,
    pub task_update: TaskUpdate,
    pub resource_update: ResourceUpdate,
    pub async_op_update: AsyncOpUpdate,
}

/// One message of a task-detail stream.
#[derive(Clone, Debug)]
pub struct TaskDetails {
    pub task_id: u64,
    pub now: u64,
    /// The task's poll-time histogram in the HdrHistogram V2 encoding;
    /// absent when it could not be encoded.
    pub poll_times_histogram: Option<Vec<u8>>,
}

/// What a publish produced.
pub struct Published {
    pub update: InstrumentUpdate,
    /// For each instrument subscriber, in order, whether it took the update.
    pub delivered: Vec<bool>,
    /// For each detail subscription entry, in order, whether each of its
    /// subscribers took the details; empty for a task that is gone.
    pub details_delivered: Vec<Vec<bool>>,
}

/// What a new instrument subscription produced.
pub struct Subscribed {
    /// The full state that was offered to the subscriber.
    pub snapshot: InstrumentUpdate,
    /// Whether the subscriber took it and was added.
    pub added: bool,
}

/// Why the main loop woke up.
#[derive(Clone, Copy, Debug, PartialEq, Eq)]
pub enum Wake {
    /// The publish interval elapsed.
    PublishTick,
    /// The event channel is filling up.
    FlushRequested,
    /// A subscription request arrived.
    Command,
    /// The subscription channel closed.
    CommandsClosed,
}

/// What the main loop does after a wake: `None` to stop, otherwise whether
/// to publish once the events are drained. Only the publish tick publishes;
/// a wake for capacity or for a request only drains.
pub fn after_wake(wake: Wake) -> (r: Option<bool>)
    ensures
        r == (match wake {
            Wake::PublishTick => Some(true),
            Wake::FlushRequested | Wake::Command => Some(false),
            Wake::CommandsClosed => None,
        }),
{
    match wake {
        Wake::PublishTick => Some(true),
        Wake::FlushRequested | Wake::Command => Some(false),
        Wake::CommandsClosed => None,
    }
}

/// What became of a request to watch a task's details.
#[derive(Clone, Copy, Debug, PartialEq, Eq)]
pub enum DetailWatch {
    /// No task has that id.
    NotFound,
    /// The subscriber did not take the first message.
    Closed,
    /// The subscriber is registered.
    Watching,
}

pub struct Aggregator {
    /// How often updates are published, in nanoseconds.
    pub publish_interval: u64,
    /// How long closed entities are kept, in nanoseconds.
    pub retention: u64,
    pub watchers: Vec<Sender<InstrumentUpdate>>,
    /// Task-detail subscribers, by task id.
    pub details_watchers: Vec<(u64, Vec<Sender<TaskDetails>>)>,
    /// All metadata ever registered, for new subscribers.
    pub all_metadata: Vec<Metadata>,
    /// Metadata registered since the last publish.
    pub new_metadata: Vec<Metadata>,
    pub tasks: IdData<Task>,
    pub task_stats: IdData<TaskStats>,
    pub resources: IdData<Resource>,
    pub resource_stats: IdData<ResourceStats>,
    pub async_ops: IdData<AsyncOp>,
    pub async_op_stats: IdData<AsyncOpStats>,
    /// All poll operations ever seen, for new subscribers.
    pub all_poll_ops: Vec<PollOp>,
    /// Poll operations seen since the last publish.
    pub new_poll_ops: Vec<PollOp>,
}

impl Aggregator {
    pub open spec fn wf(&self) -> bool {
        &&& self.tasks.wf()
        &&& self.task_stats.wf()
        &&& self.resources.wf()
        &&& self.resource_stats.wf()
        &&& self.async_ops.wf()
        &&& self.async_op_stats.wf()
    }

    pub fn new(publish_interval: u64, retention: u64) -> (r: Aggregator)
        ensures
            r.wf(),
            r.publish_interval == publish_interval,
            r.retention == retention,
            r.watchers@.len() == 0,
            r.details_watchers@.len() == 0,
            r.all_metadata@.len() == 0,
            r.new_metadata@.len() == 0,
            r.tasks@.len() == 0,
            r.task_stats@.len() == 0,
            r.resources@.len() == 0,
            r.resource_stats@.len() == 0,
            r.async_ops@.len() == 0,
            r.async_op_stats@.len() == 0,
            r.all_poll_ops@.len() == 0,
            r.new_poll_ops@.len() == 0,
    {
        Aggregator {
            publish_interval,
            retention,
            watchers: Vec::new(),
            details_watchers: Vec::new(),
            all_metadata: Vec::new(),
            new_metadata: Vec::new(),
            tasks: IdData::new(),
            task_stats: IdData::new(),
            resources: IdData::new(),
            resource_stats: IdData::new(),
            async_ops: IdData::new(),
            async_op_stats: IdData::new(),
            all_poll_ops: Vec::new(),
            new_poll_ops: Vec::new(),
        }
    }

    /// Whether `new` is this state after `event`.
    pub open spec fn applied(self, event: Event, new: Aggregator) -> bool {
        match event {
            Event::Metadata(m) => {
                &&& meta_views(new.all_metadata@) == meta_views(self.all_metadata@).push(m@)
                &&& meta_views(new.new_metadata@) == meta_views(self.new_metadata@).push(m@)
                &&& new == Aggregator {
                    all_metadata: new.all_metadata,
                    new_metadata: new.new_metadata,
                    ..self
                }
            },
            Event::Spawn { id, metadata, at, fields } => {
                &&& new.tasks@ == with_insert(self.tasks@, id, Task { id, metadata, fields })
                &&& has_id(new.task_stats@, id)
                &&& value_of(new.task_stats@, id).is_fresh(Some(at))
                &&& new.task_stats@ == with_insert(
                    self.task_stats@,
                    id,
                    value_of(new.task_stats@, id),
                )
                &&& new == Aggregator { tasks: new.tasks, task_stats: new.task_stats, ..self }
            },
            Event::Enter { id, at } => {
                &&& new.task_stats@ == with_update(
                    self.task_stats@,
                    id,
                    |t: TaskStats| t.entered(at),
                )
                &&& new.async_op_stats@ == with_update(
                    self.async_op_stats@,
                    id,
                    |a: AsyncOpStats| a.entered(at),
                )
                &&& new == Aggregator {
                    task_stats: new.task_stats,
                    async_op_stats: new.async_op_stats,
                    ..self
                }
            },
            Event::Exit { id, at } => {
                &&& updated_by(
                    self.task_stats@,
                    new.task_stats@,
                    id,
                    |a: TaskStats, b: TaskStats| a.exited_to(at, b),
                )
                &&& new.async_op_stats@ == with_update(
                    self.async_op_stats@,
                    id,
                    |a: AsyncOpStats| a.exited(at),
                )
                &&& new == Aggregator {
                    task_stats: new.task_stats,
                    async_op_stats: new.async_op_stats,
                    ..self
                }
            },
            Event::Close { id, at } => {
                &&& new.task_stats@ == with_update(
                    self.task_stats@,
                    id,
                    |t: TaskStats| t.closed(at),
                )
                &&& updated_by(
                    self.resource_stats@,
                    new.resource_stats@,
                    id,
                    |a: ResourceStats, b: ResourceStats|
                        b.closed_at == first_close(a.closed_at, at) && b.created_at == a.created_at
                            && b.attributes == a.attributes,
                )
                &&& new.async_op_stats@ == with_update(
                    self.async_op_stats@,
                    id,
                    |a: AsyncOpStats| a.closed(at),
                )
                &&& new == Aggregator {
                    task_stats: new.task_stats,
                    resource_stats: new.resource_stats,
                    async_op_stats: new.async_op_stats,
                    ..self
                }
            },
            Event::Waker { id, op, at } => {
                &&& new.task_stats@ == with_update(
                    self.task_stats@,
                    id,
                    |t: TaskStats| t.waker_applied(op, at),
                )
                &&& new == Aggregator { task_stats: new.task_stats, ..self }
            },
            Event::Resource { id, metadata, at, concrete_type, kind, .. } => {
                &&& new.resources@ == with_insert(
                    self.resources@,
                    id,
                    Resource { id, metadata, concrete_type, kind },
                )
                &&& has_id(new.resource_stats@, id)
                &&& value_of(new.resource_stats@, id).created_at == Some(at)
                &&& value_of(new.resource_stats@, id).closed_at is None
                &&& value_of(new.resource_stats@, id).attributes@.len() == 0
                &&& new.resource_stats@ == with_insert(
                    self.resource_stats@,
                    id,
                    value_of(new.resource_stats@, id),
                )
                &&& new == Aggregator {
                    resources: new.resources,
                    resource_stats: new.resource_stats,
                    ..self
                }
            },
            Event::PollOp {
                metadata,
                at,
                resource_id,
                op_name,
                async_op_id,
                task_id,
                readiness,
            } => {
                let op = PollOp {
                    metadata,
                    resource_id,
                    name: op_name,
                    task_id,
                    async_op_id,
                    readiness,
                };
                &&& new.async_op_stats@ == with_update(
                    with_default(self.async_op_stats@, async_op_id, AsyncOpStats::fresh(None)),
                    async_op_id,
                    |a: AsyncOpStats| a.polled(at, resource_id, task_id, readiness),
                )
                &&& new.all_poll_ops@ == self.all_poll_ops@.push(op)
                &&& new.new_poll_ops@ == self.new_poll_ops@.push(op)
                &&& new == Aggregator {
                    async_op_stats: new.async_op_stats,
                    all_poll_ops: new.all_poll_ops,
                    new_poll_ops: new.new_poll_ops,
                    ..self
                }
            },
            Event::StateUpdate { resource_id, update } => {
                &&& updated_by(
                    self.resource_stats@,
                    new.resource_stats@,
                    resource_id,
                    |a: ResourceStats, b: ResourceStats|
                        b.created_at == a.created_at && b.closed_at == a.closed_at
                            && b.attributes@ == attributes_updated(a.attributes@, update),
                )
                &&& new == Aggregator { resource_stats: new.resource_stats, ..self }
            },
            Event::AsyncResourceOp { id, metadata, at, source } => {
                &&& new.async_ops@ == with_insert(
                    self.async_ops@,
                    id,
                    AsyncOp { id, metadata, source },
                )
                &&& new.async_op_stats@ == with_insert(
                    self.async_op_stats@,
                    id,
                    AsyncOpStats::fresh(Some(at)),
                )
                &&& new == Aggregator {
                    async_ops: new.async_ops,
                    async_op_stats: new.async_op_stats,
                    ..self
                }
            },
        }
    }

    /// Applies one event to the state.
    pub fn update_state(&mut self, event: Event)
        requires
            old(self).wf(),
        ensures
            final(self).wf(),
            old(self).applied(event, *final(self)),
    {
        match event {
            Event::Metadata(meta) => {
                let copy = meta.duplicate();
                proof {
                    assert(meta_views(self.all_metadata@.push(copy)) =~= meta_views(
                        self.all_metadata@,
                    ).push(meta@));
                    assert(meta_views(self.new_metadata@.push(meta)) =~= meta_views(
                        self.new_metadata@,
                    ).push(meta@));
                }
                self.all_metadata.push(copy);
                self.new_metadata.push(meta);
            },
            Event::Spawn { id, metadata, at, fields } => {
                self.tasks.insert(id, Task { id, metadata, fields });
                let stats = TaskStats::new(Some(at));
                let ghost st = stats;
                self.task_stats.insert(id, stats);
                proof {
                    lemma_inserted_value(old(self).task_stats@, id, st);
                }
            },
            Event::Enter { id, at } => {
                if let Some(i) = self.task_stats.find(id) {
                    let t = self.task_stats.value_mut(i);
                    t.record_enter(at);
                }
                if let Some(i) = self.async_op_stats.find(id) {
                    let a = self.async_op_stats.value_mut(i);
                    a.poll_stats.update_on_span_enter(at);
                }
            },
            Event::Exit { id, at } => {
                if let Some(i) = self.task_stats.find(id) {
                    let t = self.task_stats.value_mut(i);
                    t.record_exit(at);
                }
                if let Some(i) = self.async_op_stats.find(id) {
                    let a = self.async_op_stats.value_mut(i);
                    a.poll_stats.update_on_span_exit(at);
                }
            },
            Event::Close { id, at } => {
                if let Some(i) = self.task_stats.find(id) {
                    let t = self.task_stats.value_mut(i);
                    close_once(&mut t.closed_at, at);
                }
                if let Some(i) = self.resource_stats.find(id) {
                    let r = self.resource_stats.value_mut(i);
                    close_once(&mut r.closed_at, at);
                }
                if let Some(i) = self.async_op_stats.find(id) {
                    let a = self.async_op_stats.value_mut(i);
                    close_once(&mut a.closed_at, at);
                }
            },
            Event::Waker { id, op, at } => {
                // Wakers may outlive their task; those ops do not create a task.
                if let Some(i) = self.task_stats.find(id) {
                    let t = self.task_stats.value_mut(i);
                    t.record_waker_op(op, at);
                }
            },
            Event::Resource { id, metadata, at, concrete_type, kind, .. } => {
                self.resources.insert(id, Resource { id, metadata, concrete_type, kind });
                let stats = ResourceStats::new(Some(at));
                let ghost st = stats;
                self.resource_stats.insert(id, stats);
                proof {
                    lemma_inserted_value(old(self).resource_stats@, id, st);
                }
            },
            Event::PollOp { metadata, at, resource_id, op_name, async_op_id, task_id, readiness } => {
                let i = self.async_op_stats.find_or_insert(async_op_id, AsyncOpStats::new(None));
                let a = self.async_op_stats.value_mut(i);
                a.record_poll(at, resource_id, task_id, readiness);
                let op = PollOp {
                    metadata,
                    resource_id,
                    name: op_name,
                    task_id,
                    async_op_id,
                    readiness,
                };
                self.all_poll_ops.push(op.duplicate());
                self.new_poll_ops.push(op);
            },
            Event::StateUpdate { resource_id, update } => {
                if let Some(i) = self.resource_stats.find(resource_id) {
                    let r = self.resource_stats.value_mut(i);
                    r.apply_update(update);
                }
            },
            Event::AsyncResourceOp { id, metadata, at, source } => {
                self.async_ops.insert(id, AsyncOp { id, metadata, source });
                self.async_op_stats.insert(id, AsyncOpStats::new(Some(at)));
            },
        }
    }
}

impl Aggregator {
    /// Whether `p` is what publishing from this state at `now` produced, and
    /// `new` the state after it.
    pub open spec fn publishes(self, now: u64, p: Published, new: Aggregator) -> bool {
        let r = p.update;
        &&& r.now == now
        &&& if self.new_metadata@.len() == 0 {
            r.new_metadata is None
        } else {
            r.new_metadata == Some(self.new_metadata)
        }
        &&& new.new_metadata@.len() == 0
        &&& r.resource_update.new_poll_ops@ == self.new_poll_ops@
        &&& new.new_poll_ops@.len() == 0
        &&& out_views(r.task_update.new_tasks@) == dirty_views(self.tasks@)
        &&& new.tasks@ == cleared(self.tasks@)
        &&& pair_views(r.task_update.stats_update@) == dirty_pairs(self.task_stats@)
        &&& new.task_stats@ == cleared(self.task_stats@)
        &&& out_views(r.resource_update.new_resources@) == dirty_views(self.resources@)
        &&& new.resources@ == cleared(self.resources@)
        &&& pair_views(r.resource_update.stats_update@) == dirty_pairs(self.resource_stats@)
        &&& new.resource_stats@ == cleared(self.resource_stats@)
        &&& out_views(r.async_op_update.new_async_ops@) == dirty_views(self.async_ops@)
        &&& new.async_ops@ == cleared(self.async_ops@)
        &&& pair_views(r.async_op_update.stats_update@) == dirty_pairs(self.async_op_stats@)
        &&& new.async_op_stats@ == cleared(self.async_op_stats@)
        &&& p.delivered@.len() == self.watchers@.len()
        &&& new.watchers@ == kept_by(self.watchers@, p.delivered@)
        &&& p.details_delivered@.len() == self.details_watchers@.len()
        &&& details_view(new.details_watchers@) == details_after(
            details_view(self.details_watchers@),
            new.task_stats@,
            outcomes_view(p.details_delivered@),
        )
        &&& new.all_metadata == self.all_metadata
        &&& new.all_poll_ops == self.all_poll_ops
        &&& new.publish_interval == self.publish_interval
        &&& new.retention == self.retention
    }

    /// Whether `new` is this state after dropping, at `now`, the closed
    /// entities that retention no longer keeps.
    pub open spec fn cleaned(self, now: u64, new: Aggregator) -> bool {
        let has_watchers = self.watchers@.len() > 0;
        &&& new.task_stats@ == retained(self.task_stats@, now, self.retention, has_watchers)
        &&& new.tasks@ == with_stats_in(self.tasks@, new.task_stats@)
        &&& new.resource_stats@ == retained(
            self.resource_stats@,
            now,
            self.retention,
            has_watchers,
        )
        &&& new.resources@ == with_stats_in(self.resources@, new.resource_stats@)
        &&& new.async_op_stats@ == retained(
            self.async_op_stats@,
            now,
            self.retention,
            has_watchers,
        )
        &&& new.async_ops@ == with_stats_in(self.async_ops@, new.async_op_stats@)
        &&& new == Aggregator {
            tasks: new.tasks,
            task_stats: new.task_stats,
            resources: new.resources,
            resource_stats: new.resource_stats,
            async_ops: new.async_ops,
            async_op_stats: new.async_op_stats,
            ..self
        }
    }

    /// The details message for a task, if the task is known.
    pub fn task_details(&self, task_id: u64, now: u64) -> (r: Option<TaskDetails>)
        requires
            self.wf(),
        ensures
            r is Some <==> has_id(self.task_stats@, task_id),
            r matches Some(d) ==> d.task_id == task_id && d.now == now && bytes_view(
                d.poll_times_histogram,
            ) == v2_encoding(value_of(self.task_stats@, task_id).poll_times_histogram),
    {
        match self.task_stats.get(task_id) {
            Some(stats) => Some(
                TaskDetails {
                    task_id,
                    now,
                    poll_times_histogram: stats.serialized_histogram(),
                },
            ),
            None => None,
        }
    }

    /// Publishes the dirty state to every subscriber, clearing the dirty
    /// bits and the lists of new metadata and poll ops. Subscribers that do
    /// not take the update are dropped; each detail subscriber is offered
    /// its task's details, and is dropped if it does not take them or the
    /// task is gone. Returns the update and the delivery outcomes.
    pub fn publish(&mut self, now: u64) -> (r: Published)
        requires
            old(self).wf(),
        ensures
            final(self).wf(),
            old(self).publishes(now, r, *final(self)),
    {
        let new_metadata = if self.new_metadata.len() > 0 {
            let mut taken: Vec<Metadata> = Vec::new();
            std::mem::swap(&mut taken, &mut self.new_metadata);
            Some(taken)
        } else {
            None
        };
        let mut new_poll_ops: Vec<PollOp> = Vec::new();
        std::mem::swap(&mut new_poll_ops, &mut self.new_poll_ops);
        let update = InstrumentUpdate {
            now,
            new_metadata,
            task_update: TaskUpdate {
                new_tasks: self.tasks.since_last_update(),
                stats_update: self.task_stats.as_proto(Include::UpdatedOnly),
            },
            resource_update: ResourceUpdate {
                new_resources: self.resources.since_last_update(),
                stats_update: self.resource_stats.as_proto(Include::UpdatedOnly),
                new_poll_ops,
            },
            async_op_update: AsyncOpUpdate {
                new_async_ops: self.async_ops.since_last_update(),
                stats_update: self.async_op_stats.as_proto(Include::UpdatedOnly),
            },
        };
        let delivered = deliver_to_all(&mut self.watchers, &update);

        let mut pending: Vec<(u64, Vec<Sender<TaskDetails>>)> = Vec::new();
        std::mem::swap(&mut pending, &mut self.details_watchers);
        let ghost before = *self;
        let ghost start = details_view(pending@);
        let mut details_delivered: Vec<Vec<bool>> = Vec::new();
        for entry in it: pending.into_iter()
            invariant
                self.wf(),
                *self == (Aggregator { details_watchers: self.details_watchers, ..before }),
                start == details_view(it.seq()),
                details_delivered@.len() == it.index(),
                details_view(self.details_watchers@) == details_after(
                    start.subrange(0, it.index() as int),
                    self.task_stats@,
                    outcomes_view(details_delivered@),
                ),
        {
            let ghost k = it.index();
            let ghost dw = self.details_watchers@;
            let ghost outs = details_delivered@;
            let (id, mut watchers) = entry;
            let ghost ws = watchers@;
            proof {
                assert(start.subrange(0, k + 1).drop_last() =~= start.subrange(0, k as int));
                assert(start[k as int] == (id, ws));
            }
            let outcome = match self.task_details(id, now) {
                Some(details) => {
                    let o = deliver_to_all(&mut watchers, &details);
                    if watchers.len() > 0 {
                        proof {
                            assert(details_view(dw.push((id, watchers))) =~= details_view(dw).push(
                                (id, watchers@),
                            ));
                        }
                        self.details_watchers.push((id, watchers));
                    }
                    o
                },
                None => Vec::new(),
            };
            proof {
                assert(outcomes_view(outs.push(outcome)).drop_last() =~= outcomes_view(outs));
                assert(outcomes_view(outs.push(outcome)).last() == outcome@);
            }
            details_delivered.push(outcome);
        }
        proof {
            assert(start.subrange(0, start.len() as int) =~= start);
        }
        Published { update, delivered, details_delivered }
    }

    /// Whether `r` is the full state at `now`: every entity and its stats,
    /// dirty or not, all poll ops and all metadata.
    pub open spec fn snapshot_of(self, now: u64, r: InstrumentUpdate) -> bool {
        &&& r.now == now
        &&& r.new_metadata matches Some(m) && meta_views(m@) == meta_views(self.all_metadata@)
        &&& r.resource_update.new_poll_ops@ == self.all_poll_ops@
        &&& out_views(r.task_update.new_tasks@) == all_views(self.tasks@)
        &&& pair_views(r.task_update.stats_update@) == all_pairs(self.task_stats@)
        &&& out_views(r.resource_update.new_resources@) == all_views(self.resources@)
        &&& pair_views(r.resource_update.stats_update@) == all_pairs(self.resource_stats@)
        &&& out_views(r.async_op_update.new_async_ops@) == all_views(self.async_ops@)
        &&& pair_views(r.async_op_update.stats_update@) == all_pairs(self.async_op_stats@)
    }

    /// The full state, for a new subscriber: every entity and its stats,
    /// all poll ops and all metadata. Dirty bits are left as they are.
    pub fn initial_update(&mut self, now: u64) -> (r: InstrumentUpdate)
        requires
            old(self).wf(),
        ensures
            final(self).wf(),
            final(self).tasks@ == old(self).tasks@,
            final(self).task_stats@ == old(self).task_stats@,
            final(self).resources@ == old(self).resources@,
            final(self).resource_stats@ == old(self).resource_stats@,
            final(self).async_ops@ == old(self).async_ops@,
            final(self).async_op_stats@ == old(self).async_op_stats@,
            *final(self) == (Aggregator {
                tasks: final(self).tasks,
                task_stats: final(self).task_stats,
                resources: final(self).resources,
                resource_stats: final(self).resource_stats,
                async_ops: final(self).async_ops,
                async_op_stats: final(self).async_op_stats,
                ..*old(self)
            }),
            old(self).snapshot_of(now, r),
    {
        InstrumentUpdate {
            now,
            new_metadata: Some(duplicate_metadata_list(&self.all_metadata)),
            task_update: TaskUpdate {
                new_tasks: self.tasks.all(),
                stats_update: self.task_stats.as_proto(Include::All),
            },
            resource_update: ResourceUpdate {
                new_resources: self.resources.all(),
                stats_update: self.resource_stats.as_proto(Include::All),
                new_poll_ops: duplicate_poll_ops(&self.all_poll_ops),
            },
            async_op_update: AsyncOpUpdate {
                new_async_ops: self.async_ops.all(),
                stats_update: self.async_op_stats.as_proto(Include::All),
            },
        }
    }

    /// Offers the full state to a new subscriber and, if it took it, adds the
    /// subscriber to those that receive updates. Returns the state offered
    /// and whether the subscriber was added. Dirty bits are left as they are.
    pub fn add_instrument_subscription(
        &mut self,
        subscription: Sender<InstrumentUpdate>,
        now: u64,
    ) -> (r: Subscribed)
        requires
            old(self).wf(),
        ensures
            final(self).wf(),
            old(self).snapshot_of(now, r.snapshot),
            r.added ==> final(self).watchers@ == old(self).watchers@.push(subscription),
            !r.added ==> final(self).watchers@ == old(self).watchers@,
            final(self).tasks@ == old(self).tasks@,
            final(self).task_stats@ == old(self).task_stats@,
            final(self).resources@ == old(self).resources@,
            final(self).resource_stats@ == old(self).resource_stats@,
            final(self).async_ops@ == old(self).async_ops@,
            final(self).async_op_stats@ == old(self).async_op_stats@,
            *final(self) == (Aggregator {
                watchers: final(self).watchers,
                tasks: final(self).tasks,
                task_stats: final(self).task_stats,
                resources: final(self).resources,
                resource_stats: final(self).resource_stats,
                async_ops: final(self).async_ops,
                async_op_stats: final(self).async_op_stats,
                ..*old(self)
            }),
    {
        let snapshot = self.initial_update(now);
        let added = try_deliver(&subscription, &snapshot);
        if added {
            self.watchers.push(subscription);
        }
        Subscribed { snapshot, added }
    }

    /// Registers a subscriber to a task's details, after sending it the
    /// first details message; unknown tasks are refused.
    pub fn add_task_detail_subscription(
        &mut self,
        task_id: u64,
        watch: Sender<TaskDetails>,
        now: u64,
    ) -> (r: DetailWatch)
        requires
            old(self).wf(),
        ensures
            final(self).wf(),
            r == DetailWatch::NotFound <==> !has_id(old(self).task_stats@, task_id),
            r == DetailWatch::Watching ==> details_view(final(self).details_watchers@)
                == details_with(details_view(old(self).details_watchers@), task_id, watch),
            r != DetailWatch::Watching ==> final(self).details_watchers
                == old(self).details_watchers,
            *final(self) == (Aggregator {
                details_watchers: final(self).details_watchers,
                ..*old(self)
            }),
    {
        let details = match self.task_details(task_id, now) {
            Some(d) => d,
            None => {
                return DetailWatch::NotFound;
            },
        };
        if !try_deliver(&watch, &details) {
            return DetailWatch::Closed;
        }
        let ghost s0 = details_view(self.details_watchers@);
        let mut k: usize = 0;
        while k < self.details_watchers.len() && self.details_watchers[k].0 != task_id
            invariant
                k <= self.details_watchers@.len(),
                s0 == details_view(self.details_watchers@),
                forall|j: int| 0 <= j < k ==> (#[trigger] s0[j]).0 != task_id,
            decreases self.details_watchers@.len() - k,
        {
            k = k + 1;
        }
        if k < self.details_watchers.len() {
            let ghost before = self.details_watchers@;
            proof {
                assert(is_first_entry(s0, task_id, k as int));
                assert(watches_task(s0, task_id));
                let c = choose|c: int| is_first_entry(s0, task_id, c);
                if c < k {
                    assert(s0[c].0 != task_id);
                }
                if c > k {
                    assert(s0[k as int].0 != task_id);
                }
            }
            self.details_watchers[k].1.push(watch);
            proof {
                assert(details_view(self.details_watchers@) =~= s0.update(
                    k as int,
                    (task_id, s0[k as int].1.push(watch)),
                ));
            }
        } else {
            proof {
                if watches_task(s0, task_id) {
                    let c = choose|c: int| 0 <= c < s0.len() && (#[trigger] s0[c]).0 == task_id;
                    assert(s0[c].0 != task_id);
                }
            }
            let mut watchers: Vec<Sender<TaskDetails>> = Vec::new();
            watchers.push(watch);
            let ghost dw = self.details_watchers@;
            self.details_watchers.push((task_id, watchers));
            proof {
                assert(watchers@ =~= seq![watch]);
                assert(details_view(self.details_watchers@) =~= s0.push((task_id, seq![watch])));
            }
        }
        DetailWatch::Watching
    }

    /// Drops the closed entities whose final state has been published, or
    /// that nobody watches, once retention has passed; static data goes
    /// with its stats.
    pub fn cleanup_closed(&mut self, now: u64)
        requires
            old(self).wf(),
        ensures
            final(self).wf(),
            old(self).cleaned(now, *final(self)),
    {
        let has_watchers = self.watchers.len() > 0;
        let retention = self.retention;
        self.tasks.drop_closed(&mut self.task_stats, now, retention, has_watchers);
        self.resources.drop_closed(&mut self.resource_stats, now, retention, has_watchers);
        self.async_ops.drop_closed(&mut self.async_op_stats, now, retention, has_watchers);
    }

    /// One round of the main loop after the events are drained: publish if
    /// it is time and someone is watching, then drop what retention no
    /// longer keeps. Returns what was published, if anything.
    pub fn publish_and_cleanup(&mut self, should_send: bool, now: u64) -> (r: Option<Published>)
        requires
            old(self).wf(),
        ensures
            final(self).wf(),
            r is Some <==> should_send && old(self).watchers@.len() > 0,
            r is None ==> old(self).cleaned(now, *final(self)),
            r matches Some(u) ==> exists|mid: Aggregator|
                old(self).publishes(now, u, mid) && #[trigger] mid.cleaned(now, *final(self)),
    {
        let ghost start = *self;
        if should_send && self.watchers.len() > 0 {
            let u = self.publish(now);
            let ghost mid = *self;
            self.cleanup_closed(now);
            assert(mid.cleaned(now, *self));
            Some(u)
        } else {
            self.cleanup_closed(now);
            None
        }
    }
}

/// Publishing twice with no event in between: the second update carries no
/// new entity, no stats, no poll op and no metadata.
pub proof fn lemma_second_publish_is_empty(
    a: Aggregator,
    now1: u64,
    first: Published,
    mid: Aggregator,
    now2: u64,
    second: Published,
    last: Aggregator,
)
    requires
        a.wf(),
        a.publishes(now1, first, mid),
        mid.publishes(now2, second, last),
    ensures
        second.update.new_metadata is None,
        second.update.task_update.new_tasks@.len() == 0,
        second.update.task_update.stats_update@.len() == 0,
        second.update.resource_update.new_resources@.len() == 0,
        second.update.resource_update.stats_update@.len() == 0,
        second.update.resource_update.new_poll_ops@.len() == 0,
        second.update.async_op_update.new_async_ops@.len() == 0,
        second.update.async_op_update.stats_update@.len() == 0,
{
    lemma_updates_handed_out_once(a.tasks@);
    lemma_updates_handed_out_once(a.task_stats@);
    lemma_updates_handed_out_once(a.resources@);
    lemma_updates_handed_out_once(a.resource_stats@);
    lemma_updates_handed_out_once(a.async_ops@);
    lemma_updates_handed_out_once(a.async_op_stats@);
    assert(out_views(second.update.task_update.new_tasks@).len() == 0);
    assert(pair_views(second.update.task_update.stats_update@).len() == 0);
    assert(out_views(second.update.resource_update.new_resources@).len() == 0);
    assert(pair_views(second.update.resource_update.stats_update@).len() == 0);
    assert(out_views(second.update.async_op_update.new_async_ops@).len() == 0);
    assert(pair_views(second.update.async_op_update.stats_update@).len() == 0);
}

/// A task spawned since the last publish reaches the next update: the
/// update lists its static data and its stats, once each; the subscribers
/// kept are exactly those that took that update.
pub proof fn lemma_spawned_task_published(
    a: Aggregator,
    id: u64,
    metadata: u64,
    at: u64,
    fields: Vec<Field>,
    b: Aggregator,
    now: u64,
    p: Published,
    c: Aggregator,
)
    requires
        a.wf(),
        a.applied(Event::Spawn { id, metadata, at, fields }, b),
        b.publishes(now, p, c),
    ensures
        exists|k: int|
            0 <= k < p.update.task_update.new_tasks@.len() && (#[trigger] p.update.task_update.new_tasks@[k])@
                == (id, metadata, fields@),
        exists|k: int|
            0 <= k < p.update.task_update.stats_update@.len() && (#[trigger] p.update.task_update.stats_update@[k]).0
                == id && p.update.task_update.stats_update@[k].1 == value_of(
                b.task_stats@,
                id,
            ).update_view(),
        forall|i: int, j: int|
            0 <= i < j < p.update.task_update.stats_update@.len() ==> p.update.task_update.stats_update@[i].0
                != p.update.task_update.stats_update@[j].0,
        p.delivered@.len() == b.watchers@.len(),
        c.watchers@ == kept_by(b.watchers@, p.delivered@),
{
    let task = Task { id, metadata, fields };
    lemma_written_row_handed_out(a.tasks@, id, task);
    lemma_dirty_views_of_pairs(b.tasks@);
    let k = choose|k: int|
        0 <= k < dirty_pairs(b.tasks@).len() && #[trigger] dirty_pairs(b.tasks@)[k] == (
            id,
            task@,
        );
    assert(dirty_views(b.tasks@)[k] == dirty_pairs(b.tasks@)[k].1);
    assert(out_views(p.update.task_update.new_tasks@).len() == p.update.task_update.new_tasks@.len());
    assert(out_views(p.update.task_update.new_tasks@)[k] == task@);
    assert(p.update.task_update.new_tasks@[k]@ == task@);
    let st = value_of(b.task_stats@, id);
    lemma_written_row_handed_out(a.task_stats@, id, st);
    let m = choose|m: int|
        0 <= m < dirty_pairs(b.task_stats@).len() && #[trigger] dirty_pairs(b.task_stats@)[m] == (
            id,
            st.update_view(),
        );
    assert(pair_views(p.update.task_update.stats_update@)[m] == (id, st.update_view()));
    assert forall|i: int, j: int|
        0 <= i < j < p.update.task_update.stats_update@.len() implies p.update.task_update.stats_update@[i].0
        != p.update.task_update.stats_update@[j].0 by {
        assert(pair_views(p.update.task_update.stats_update@)[i].0 == dirty_pairs(b.task_stats@)[i].0);
        assert(pair_views(p.update.task_update.stats_update@)[j].0 == dirty_pairs(b.task_stats@)[j].0);
    }
}

/// The detail subscriptions with their subscriber lists as sequences.
pub open spec fn details_view(s: Seq<(u64, Vec<Sender<TaskDetails>>)>) -> Seq<
    (u64, Seq<Sender<TaskDetails>>),
> {
    s.map_values(|e: (u64, Vec<Sender<TaskDetails>>)| (e.0, e.1@))
}

pub open spec fn outcomes_view(o: Seq<Vec<bool>>) -> Seq<Seq<bool>> {
    o.map_values(|v: Vec<bool>| v@)
}

/// The detail subscriptions after a publish: an entry whose task is gone is
/// dropped, every other entry keeps the subscribers that took the details,
/// and an entry left with none is dropped.
pub open spec fn details_after(
    s: Seq<(u64, Seq<Sender<TaskDetails>>)>,
    stats: Seq<Entry<TaskStats>>,
    outcomes: Seq<Seq<bool>>,
) -> Seq<(u64, Seq<Sender<TaskDetails>>)>
    decreases s.len(),
{
    if s.len() == 0 || outcomes.len() != s.len() {
        Seq::empty()
    } else {
        let prev = details_after(s.drop_last(), stats, outcomes.drop_last());
        let kept = kept_by(s.last().1, outcomes.last());
        if has_id(stats, s.last().0) && kept.len() > 0 {
            prev.push((s.last().0, kept))
        } else {
            prev
        }
    }
}

/// Whether `k` is the first detail subscription entry for `task_id`.
pub open spec fn is_first_entry(s: Seq<(u64, Seq<Sender<TaskDetails>>)>, task_id: u64, k: int) -> bool {
    &&& 0 <= k < s.len()
    &&& s[k].0 == task_id
    &&& forall|j: int| 0 <= j < k ==> (#[trigger] s[j]).0 != task_id
}

/// Whether some detail subscription entry is for `task_id`.
pub open spec fn watches_task(s: Seq<(u64, Seq<Sender<TaskDetails>>)>, task_id: u64) -> bool {
    exists|k: int| 0 <= k < s.len() && (#[trigger] s[k]).0 == task_id
}

/// The detail subscriptions with `w` added: appended to the first entry for
/// `task_id`, or in a new entry at the end.
pub open spec fn details_with(
    s: Seq<(u64, Seq<Sender<TaskDetails>>)>,
    task_id: u64,
    w: Sender<TaskDetails>,
) -> Seq<(u64, Seq<Sender<TaskDetails>>)> {
    if watches_task(s, task_id) {
        let k = choose|k: int| is_first_entry(s, task_id, k);
        s.update(k, (task_id, s[k].1.push(w)))
    } else {
        s.push((task_id, seq![w]))
    }
}

/// After inserting `v` for `id`, the row for `id` holds `v`.
proof fn lemma_inserted_value<T>(s: Seq<Entry<T>>, id: u64, v: T)
    requires
        unique_ids(with_insert(s, id, v)),
    ensures
        has_id(with_insert(s, id, v), id),
        value_of(with_insert(s, id, v), id) == v,
{
    let t = with_insert(s, id, v);
    let i = if has_id(s, id) {
        index_of(s, id)
    } else {
        s.len() as int
    };
    assert(t[i].id == id);
    assert(has_id(t, id));
    let j = index_of(t, id);
    assert(t[j].id == t[i].id);
}

} // verus!
