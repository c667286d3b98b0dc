//! Live statistics of tasks, resources and async operations.
use vstd::prelude::*;
use crate::histogram::{
    bytes_view, new_histogram, record_sample, sample_count, v2_encoding, PollHistogram,
};
use crate::id_data::{Closable, ToProto};
use crate::poll::{elapsed, lifetime, sat_add, total_time, PollStats, PollStatsUpdate};
use crate::records::{duplicate_opt_string, Field, FieldValue, Readiness};

verus! {

/// An operation on a task's waker.
#[derive(Clone, Copy, Debug, PartialEq, Eq)]
pub enum WakeOp {
    /// The waker was woken by value, which consumes it.
    Wake { self_wake: bool },
    WakeByRef { self_wake: bool },
    Clone,
    Drop,
}

impl WakeOp {
    /// Whether this is a `Wake` or `WakeByRef` operation.
    pub fn is_wake(self) -> (r: bool)
        ensures
            r == (self is Wake || self is WakeByRef),
    {
        match self {
            WakeOp::Wake { .. } | WakeOp::WakeByRef { .. } => true,
            _ => false,
        }
    }

    /// The same operation, marked as a task waking itself or not; `Clone`
    /// and `Drop` are returned unchanged.
    pub fn self_wake(self, self_wake: bool) -> (r: WakeOp)
        ensures
            r == (match self {
                WakeOp::Wake { .. } => WakeOp::Wake { self_wake },
                WakeOp::WakeByRef { .. } => WakeOp::WakeByRef { self_wake },
                other => other,
            }),
    {
        match self {
            WakeOp::Wake { .. } => WakeOp::Wake { self_wake },
            WakeOp::WakeByRef { .. } => WakeOp::WakeByRef { self_wake },
            other => other,
        }
    }
}

/// Live statistics of a task.
#[derive(Debug)]
pub struct TaskStats {
    pub created_at: Option<u64>,
    pub closed_at: Option<u64>,
    pub wakes: u64,
    pub waker_clones: u64,
    pub waker_drops: u64,
    pub last_wake: Option<u64>,
    pub poll_times_histogram: PollHistogram,
    pub poll_stats: PollStats,
}

/// What a client sees of a [`TaskStats`].
#[derive(Clone, Copy, Debug, PartialEq, Eq)]
pub struct TaskStatsUpdate {
    pub poll_stats: PollStatsUpdate,
    pub created_at: Option<u64>,
    pub total_time: Option<u64>,
    pub wakes: u64,
    pub waker_clones: u64,
    pub waker_drops: u64,
    pub last_wake: Option<u64>,
}

impl View for TaskStatsUpdate {
    type V = TaskStatsUpdate;

    open spec fn view(&self) -> TaskStatsUpdate {
        *self
    }
}

impl TaskStats {
    /// The stats after the waker operation `op` at `at`. Waking by value
    /// also counts as a drop, so that clones minus drops is the number of
    /// live wakers.
    pub open spec fn waker_applied(self, op: WakeOp, at: u64) -> TaskStats {
        match op {
            WakeOp::Wake { .. } => TaskStats {
                wakes: sat_add(self.wakes, 1),
                last_wake: Some(at),
                waker_drops: sat_add(self.waker_drops, 1),
                ..self
            },
            WakeOp::WakeByRef { .. } => TaskStats {
                wakes: sat_add(self.wakes, 1),
                last_wake: Some(at),
                ..self
            },
            WakeOp::Clone => TaskStats { waker_clones: sat_add(self.waker_clones, 1), ..self },
            WakeOp::Drop => TaskStats { waker_drops: sat_add(self.waker_drops, 1), ..self },
        }
    }

    /// The stats with the span entered at `at`.
    pub open spec fn entered(self, at: u64) -> TaskStats {
        TaskStats { poll_stats: self.poll_stats.entered(at), ..self }
    }

    /// Whether `new` is `self` after the span was exited at `at`: the poll
    /// stats are updated, and an exit that ends an outermost poll records
    /// its duration into the histogram, as one more sample.
    pub open spec fn exited_to(self, at: u64, new: TaskStats) -> bool {
        &&& new == (TaskStats {
            poll_stats: self.poll_stats.exited(at),
            poll_times_histogram: new.poll_times_histogram,
            ..self
        })
        &&& if self.poll_stats.current_polls == 1 && self.poll_stats.last_poll_started is Some {
            sample_count(new.poll_times_histogram) == sample_count(
                self.poll_times_histogram,
            ).saturating_add(1)
        } else {
            new.poll_times_histogram == self.poll_times_histogram
        }
    }

    /// The stats after a close at `at`: the first close time is kept.
    pub open spec fn closed(self, at: u64) -> TaskStats {
        TaskStats { closed_at: first_close(self.closed_at, at), ..self }
    }

    pub open spec fn update_view(self) -> TaskStatsUpdate {
        TaskStatsUpdate {
            poll_stats: self.poll_stats.update_view(),
            created_at: self.created_at,
            total_time: lifetime(self.created_at, self.closed_at),
            wakes: self.wakes,
            waker_clones: self.waker_clones,
            waker_drops: self.waker_drops,
            last_wake: self.last_wake,
        }
    }

    /// Whether these are the stats of a task just created at `created_at`.
    pub open spec fn is_fresh(self, created_at: Option<u64>) -> bool {
        &&& self.created_at == created_at
        &&& self.closed_at is None
        &&& self.wakes == 0
        &&& self.waker_clones == 0
        &&& self.waker_drops == 0
        &&& self.last_wake is None
        &&& self.poll_stats == PollStats::initial()
        &&& sample_count(self.poll_times_histogram) == 0
    }

    pub fn new(created_at: Option<u64>) -> (r: TaskStats)
        ensures
            r.is_fresh(created_at),
    {
        TaskStats {
            created_at,
            closed_at: None,
            wakes: 0,
            waker_clones: 0,
            waker_drops: 0,
            last_wake: None,
            poll_times_histogram: new_histogram(2),
            poll_stats: PollStats::new(),
        }
    }

    pub fn record_waker_op(&mut self, op: WakeOp, at: u64)
        ensures
            *final(self) == old(self).waker_applied(op, at),
    {
        match op {
            WakeOp::Wake { .. } | WakeOp::WakeByRef { .. } => {
                self.wakes = self.wakes.saturating_add(1);
                self.last_wake = Some(at);
                if let WakeOp::Wake { .. } = op {
                    self.waker_drops = self.waker_drops.saturating_add(1);
                }
            },
            WakeOp::Clone => {
                self.waker_clones = self.waker_clones.saturating_add(1);
            },
            WakeOp::Drop => {
                self.waker_drops = self.waker_drops.saturating_add(1);
            },
        }
    }

    pub fn record_enter(&mut self, at: u64)
        ensures
            *final(self) == old(self).entered(at),
    {
        self.poll_stats.update_on_span_enter(at);
    }

    pub fn record_exit(&mut self, at: u64)
        ensures
            old(self).exited_to(at, *final(self)),
    {
        let ends_poll = self.poll_stats.current_polls == 1;
        self.poll_stats.update_on_span_exit(at);
        if ends_poll {
            if let Some(spent) = self.poll_stats.since_last_poll(at) {
                record_sample(&mut self.poll_times_histogram, spent);
            }
        }
    }

    /// The poll-time histogram in the HdrHistogram V2 encoding, if it can be
    /// encoded.
    pub fn serialized_histogram(&self) -> (r: Option<Vec<u8>>)
        ensures
            bytes_view(r) == v2_encoding(self.poll_times_histogram),
    {
        crate::histogram::serialize_histogram(&self.poll_times_histogram)
    }
}

impl Default for TaskStats {
    fn default() -> (r: TaskStats)
        ensures
            r.is_fresh(None),
    {
        TaskStats::new(None)
    }
}

impl Closable for TaskStats {
    open spec fn closed_time(&self) -> Option<u64> {
        self.closed_at
    }

    fn closed_at(&self) -> (r: Option<u64>) {
        self.closed_at
    }
}

impl ToProto for TaskStats {
    type Output = TaskStatsUpdate;

    open spec fn proto_view(&self) -> TaskStatsUpdate {
        self.update_view()
    }

    fn to_proto(&self) -> (r: TaskStatsUpdate) {
        TaskStatsUpdate {
            poll_stats: self.poll_stats.to_proto(),
            created_at: self.created_at,
            total_time: total_time(self.created_at, self.closed_at),
            wakes: self.wakes,
            waker_clones: self.waker_clones,
            waker_drops: self.waker_drops,
            last_wake: self.last_wake,
        }
    }
}

/// A close time that is set once: an earlier close time stays.
pub open spec fn first_close(closed_at: Option<u64>, at: u64) -> Option<u64> {
    if closed_at is None {
        Some(at)
    } else {
        closed_at
    }
}

/// Sets a close time once; an earlier close time stays.
pub fn close_once(closed_at: &mut Option<u64>, at: u64)
    ensures
        *final(closed_at) == first_close(*old(closed_at), at),
{
    if closed_at.is_none() {
        *closed_at = Some(at);
    }
}

/// The stats after each waker operation in turn, each `(op, at)`.
pub open spec fn apply_waker_ops(s: TaskStats, ops: Seq<(WakeOp, u64)>) -> TaskStats
    decreases ops.len(),
{
    if ops.len() == 0 {
        s
    } else {
        apply_waker_ops(s, ops.drop_last()).waker_applied(ops.last().0, ops.last().1)
    }
}

/// The change in the number of live wakers: a clone adds one, a drop or a
/// wake by value consumes one.
pub open spec fn waker_delta(ops: Seq<(WakeOp, u64)>) -> int
    decreases ops.len(),
{
    if ops.len() == 0 {
        0
    } else {
        waker_delta(ops.drop_last()) + match ops.last().0 {
            WakeOp::Clone => 1int,
            WakeOp::Wake { .. } | WakeOp::Drop => -1int,
            WakeOp::WakeByRef { .. } => 0int,
        }
    }
}

/// The number of wakes, by value or by reference.
pub open spec fn wake_count(ops: Seq<(WakeOp, u64)>) -> nat
    decreases ops.len(),
{
    if ops.len() == 0 {
        0
    } else {
        wake_count(ops.drop_last()) + if ops.last().0.is_wake_spec() {
            1nat
        } else {
            0nat
        }
    }
}

/// Whether a producer that starts with `live` wakers only ever drops or
/// wakes by value a waker that is alive.
pub open spec fn wakers_well_formed(live: int, ops: Seq<(WakeOp, u64)>) -> bool
    decreases ops.len(),
{
    ops.len() == 0 || (wakers_well_formed(live, ops.drop_last()) && live + waker_delta(ops) >= 0)
}

impl WakeOp {
    pub open spec fn is_wake_spec(self) -> bool {
        self is Wake || self is WakeByRef
    }
}

/// Waker clones minus waker drops moves with the number of live wakers, and
/// so never goes below zero for well-formed producer events; wakes count
/// every wake (while no counter reaches `u64::MAX`).
pub proof fn lemma_live_wakers(s: TaskStats, ops: Seq<(WakeOp, u64)>)
    requires
        s.waker_clones + ops.len() <= u64::MAX,
        s.waker_drops + ops.len() <= u64::MAX,
        s.wakes + ops.len() <= u64::MAX,
    ensures
        apply_waker_ops(s, ops).waker_clones - apply_waker_ops(s, ops).waker_drops == s.waker_clones
            - s.waker_drops + waker_delta(ops),
        apply_waker_ops(s, ops).wakes == s.wakes + wake_count(ops),
        s.waker_clones >= s.waker_drops && wakers_well_formed(
            s.waker_clones - s.waker_drops,
            ops,
        ) ==> apply_waker_ops(s, ops).waker_clones >= apply_waker_ops(s, ops).waker_drops,
    decreases ops.len(),
{
    if ops.len() > 0 {
        lemma_live_wakers(s, ops.drop_last());
        lemma_waker_counters_bounded(s, ops.drop_last());
    }
}

proof fn lemma_waker_counters_bounded(s: TaskStats, ops: Seq<(WakeOp, u64)>)
    ensures
        apply_waker_ops(s, ops).waker_clones <= s.waker_clones + ops.len(),
        apply_waker_ops(s, ops).waker_drops <= s.waker_drops + ops.len(),
        apply_waker_ops(s, ops).wakes <= s.wakes + ops.len(),
    decreases ops.len(),
{
    if ops.len() > 0 {
        lemma_waker_counters_bounded(s, ops.drop_last());
    }
}

/// How an attribute update changes an operation: `Add` and `Sub` wrap
/// around, `Override` replaces.
#[derive(Clone, Copy, Debug, PartialEq, Eq)]
pub enum UpdateOp {
    Add,
    Sub,
    Override,
}

/// A new value for a resource attribute.
#[derive(Clone, Debug)]
pub struct AttributeUpdate {
    pub field: Field,
    pub op: UpdateOp,
    pub unit: Option<String>,
}

/// A typed value with an optional unit, attached to a resource.
#[derive(Clone, Debug)]
pub struct Attribute {
    pub field: Field,
    pub unit: Option<String>,
}

impl Attribute {
    pub fn duplicate(&self) -> (r: Attribute)
        ensures
            r == *self,
    {
        Attribute { field: self.field.duplicate(), unit: duplicate_opt_string(&self.unit) }
    }

    pub open spec fn from_update(update: AttributeUpdate) -> Attribute {
        Attribute { field: update.field, unit: update.unit }
    }
}

/// The value after an update: it applies only when both values have the
/// same type; otherwise the current value stays.
pub open spec fn updated_value(cur: Option<FieldValue>, upd: Option<FieldValue>, op: UpdateOp) -> Option<
    FieldValue,
> {
    match (cur, upd) {
        (Some(FieldValue::Bool(_)), Some(FieldValue::Bool(u))) => Some(FieldValue::Bool(u)),
        (Some(FieldValue::Str(_)), Some(FieldValue::Str(u))) => Some(FieldValue::Str(u)),
        (Some(FieldValue::Debug(_)), Some(FieldValue::Debug(u))) => Some(FieldValue::Debug(u)),
        (Some(FieldValue::U64(v)), Some(FieldValue::U64(u))) => Some(
            FieldValue::U64(
                match op {
                    UpdateOp::Add => v.wrapping_add(u),
                    UpdateOp::Sub => v.wrapping_sub(u),
                    UpdateOp::Override => u,
                },
            ),
        ),
        (Some(FieldValue::I64(v)), Some(FieldValue::I64(u))) => Some(
            FieldValue::I64(
                match op {
                    UpdateOp::Add => v.wrapping_add(u),
                    UpdateOp::Sub => v.wrapping_sub(u),
                    UpdateOp::Override => u,
                },
            ),
        ),
        _ => cur,
    }
}

/// Applies `update` to the value of `attribute`; name, callsite and unit stay.
pub fn update_attribute(attribute: &mut Attribute, update: AttributeUpdate)
    ensures
        final(attribute).field.value == updated_value(
            old(attribute).field.value,
            update.field.value,
            update.op,
        ),
        final(attribute).field.name == old(attribute).field.name,
        final(attribute).field.meta_id == old(attribute).field.meta_id,
        final(attribute).unit == old(attribute).unit,
{
    let op = update.op;
    let replacement: Option<FieldValue> = match (&attribute.field.value, update.field.value) {
        (Some(FieldValue::Bool(_)), Some(FieldValue::Bool(u))) => Some(FieldValue::Bool(u)),
        (Some(FieldValue::Str(_)), Some(FieldValue::Str(u))) => Some(FieldValue::Str(u)),
        (Some(FieldValue::Debug(_)), Some(FieldValue::Debug(u))) => Some(FieldValue::Debug(u)),
        (Some(FieldValue::U64(v)), Some(FieldValue::U64(u))) => Some(
            FieldValue::U64(
                match op {
                    UpdateOp::Add => v.wrapping_add(u),
                    UpdateOp::Sub => v.wrapping_sub(u),
                    UpdateOp::Override => u,
                },
            ),
        ),
        (Some(FieldValue::I64(v)), Some(FieldValue::I64(u))) => Some(
            FieldValue::I64(
                match op {
                    UpdateOp::Add => v.wrapping_add(u),
                    UpdateOp::Sub => v.wrapping_sub(u),
                    UpdateOp::Override => u,
                },
            ),
        ),
        _ => None,
    };
    if let Some(v) = replacement {
        attribute.field.value = Some(v);
    }
}

/// Whether two fields are keyed alike: same callsite and same name.
pub open spec fn same_key(a: Field, b: Field) -> bool {
    a.meta_id == b.meta_id && a.name.same_name(b.name)
}

/// Whether `i` is the first attribute keyed like `f`.
pub open spec fn is_first_key(s: Seq<Attribute>, f: Field, i: int) -> bool {
    &&& 0 <= i < s.len()
    &&& same_key(s[i].field, f)
    &&& forall|j: int| 0 <= j < i ==> !same_key(#[trigger] s[j].field, f)
}

pub open spec fn has_key(s: Seq<Attribute>, f: Field) -> bool {
    exists|i: int| 0 <= i < s.len() && same_key(#[trigger] s[i].field, f)
}

pub open spec fn first_key(s: Seq<Attribute>, f: Field) -> int {
    choose|i: int| is_first_key(s, f, i)
}

/// The attributes after `update`: the first attribute keyed alike is
/// updated in place, or else a new attribute is appended.
pub open spec fn attributes_updated(s: Seq<Attribute>, update: AttributeUpdate) -> Seq<Attribute> {
    if has_key(s, update.field) {
        let i = first_key(s, update.field);
        s.update(
            i,
            Attribute {
                field: Field {
                    value: updated_value(s[i].field.value, update.field.value, update.op),
                    ..s[i].field
                },
                ..s[i]
            },
        )
    } else {
        s.push(Attribute::from_update(update))
    }
}

/// Live statistics of a resource.
#[derive(Debug)]
pub struct ResourceStats {
    pub created_at: Option<u64>,
    pub closed_at: Option<u64>,
    pub attributes: Vec<Attribute>,
}

/// What a client sees of a [`ResourceStats`].
#[derive(Clone, Debug)]
pub struct ResourceStatsUpdate {
    pub created_at: Option<u64>,
    pub total_time: Option<u64>,
    pub attributes: Vec<Attribute>,
}

impl View for ResourceStatsUpdate {
    type V = (Option<u64>, Option<u64>, Seq<Attribute>);

    open spec fn view(&self) -> Self::V {
        (self.created_at, self.total_time, self.attributes@)
    }
}

impl ResourceStats {
    pub fn new(created_at: Option<u64>) -> (r: ResourceStats)
        ensures
            r.created_at == created_at,
            r.closed_at is None,
            r.attributes@ == Seq::<Attribute>::empty(),
    {
        ResourceStats { created_at, closed_at: None, attributes: Vec::new() }
    }

    /// Applies a state update to the attribute keyed like it, or adds it.
    pub fn apply_update(&mut self, update: AttributeUpdate)
        ensures
            final(self).created_at == old(self).created_at,
            final(self).closed_at == old(self).closed_at,
            final(self).attributes@ == attributes_updated(old(self).attributes@, update),
    {
        let ghost start = self.attributes@;
        let ghost upd = update;
        let mut i: usize = 0;
        while i < self.attributes.len()
            invariant
                self.attributes@ == start,
                start == old(self).attributes@,
                self.created_at == old(self).created_at,
                self.closed_at == old(self).closed_at,
                upd == update,
                i <= start.len(),
                forall|j: int| 0 <= j < i ==> !same_key(#[trigger] start[j].field, update.field),
            decreases start.len() - i,
        {
            let matches = self.attributes[i].field.meta_id == update.field.meta_id
                && self.attributes[i].field.name.same_as(&update.field.name);
            if matches {
                proof {
                    assert(is_first_key(start, update.field, i as int));
                    assert(has_key(start, update.field));
                    let k = first_key(start, update.field);
                    assert(is_first_key(start, update.field, k));
                    if k < i {
                        assert(!same_key(start[k].field, update.field));
                    }
                    if k > i {
                        assert(!same_key(start[i as int].field, update.field));
                    }
                    assert(k == i);
                }
                let mut attr = self.attributes.remove(i);
                update_attribute(&mut attr, update);
                self.attributes.insert(i, attr);
                proof {
                    let k = i as int;
                    let expected = Attribute {
                        field: Field {
                            value: updated_value(start[k].field.value, upd.field.value, upd.op),
                            ..start[k].field
                        },
                        ..start[k]
                    };
                    assert(attr.field == expected.field);
                    assert(attr == expected);
                    assert(self.attributes@ =~= start.update(k, expected));
                    assert(self.attributes@ =~= attributes_updated(start, upd));
                }
                return;
            }
            i = i + 1;
        }
        proof {
            if has_key(start, update.field) {
                let k = choose|k: int| 0 <= k < start.len() && same_key(#[trigger] start[k].field, update.field);
                assert(!same_key(start[k].field, update.field));
            }
        }
        self.attributes.push(Attribute { field: update.field, unit: update.unit });
    }

    /// The stats after a close at `at`: the first close time is kept.
    pub open spec fn closed(self, at: u64) -> ResourceStats {
        ResourceStats { closed_at: first_close(self.closed_at, at), ..self }
    }
}

impl Closable for ResourceStats {
    open spec fn closed_time(&self) -> Option<u64> {
        self.closed_at
    }

    fn closed_at(&self) -> (r: Option<u64>) {
        self.closed_at
    }
}

impl ToProto for ResourceStats {
    type Output = ResourceStatsUpdate;

    open spec fn proto_view(&self) -> (Option<u64>, Option<u64>, Seq<Attribute>) {
        (self.created_at, lifetime(self.created_at, self.closed_at), self.attributes@)
    }

    fn to_proto(&self) -> (r: ResourceStatsUpdate) {
        let mut attributes: Vec<Attribute> = Vec::new();
        let mut i: usize = 0;
        while i < self.attributes.len()
            invariant
                i <= self.attributes@.len(),
                attributes@ == self.attributes@.subrange(0, i as int),
            decreases self.attributes@.len() - i,
        {
            attributes.push(self.attributes[i].duplicate());
            i = i + 1;
        }
        assert(attributes@ =~= self.attributes@);
        ResourceStatsUpdate {
            created_at: self.created_at,
            total_time: total_time(self.created_at, self.closed_at),
            attributes,
        }
    }
}

/// Live statistics of an async operation.
#[derive(Clone, Copy, Debug, PartialEq, Eq)]
pub struct AsyncOpStats {
    pub created_at: Option<u64>,
    pub closed_at: Option<u64>,
    pub resource_id: Option<u64>,
    pub task_id: Option<u64>,
    pub poll_stats: PollStats,
}

/// What a client sees of an [`AsyncOpStats`].
#[derive(Clone, Copy, Debug, PartialEq, Eq)]
pub struct AsyncOpStatsUpdate {
    pub poll_stats: PollStatsUpdate,
    pub created_at: Option<u64>,
    pub total_time: Option<u64>,
    pub resource_id: Option<u64>,
    pub task_id: Option<u64>,
}

impl View for AsyncOpStatsUpdate {
    type V = AsyncOpStatsUpdate;

    open spec fn view(&self) -> AsyncOpStatsUpdate {
        *self
    }
}

impl AsyncOpStats {
    pub open spec fn fresh(created_at: Option<u64>) -> AsyncOpStats {
        AsyncOpStats {
            created_at,
            closed_at: None,
            resource_id: None,
            task_id: None,
            poll_stats: PollStats::initial(),
        }
    }

    pub fn new(created_at: Option<u64>) -> (r: AsyncOpStats)
        ensures
            r == AsyncOpStats::fresh(created_at),
    {
        AsyncOpStats {
            created_at,
            closed_at: None,
            resource_id: None,
            task_id: None,
            poll_stats: PollStats::new(),
        }
    }

    pub open spec fn entered(self, at: u64) -> AsyncOpStats {
        AsyncOpStats { poll_stats: self.poll_stats.entered(at), ..self }
    }

    pub open spec fn exited(self, at: u64) -> AsyncOpStats {
        AsyncOpStats { poll_stats: self.poll_stats.exited(at), ..self }
    }

    /// The stats after a close at `at`: the first close time is kept.
    pub open spec fn closed(self, at: u64) -> AsyncOpStats {
        AsyncOpStats { closed_at: first_close(self.closed_at, at), ..self }
    }

    /// The stats after a poll of the operation by `task_id` on
    /// `resource_id`: one more poll, the task and resource kept once known,
    /// and the first pending poll's time.
    pub open spec fn polled(
        self,
        at: u64,
        resource_id: u64,
        task_id: u64,
        readiness: Readiness,
    ) -> AsyncOpStats {
        AsyncOpStats {
            poll_stats: PollStats {
                polls: sat_add(self.poll_stats.polls, 1),
                first_poll: if readiness == Readiness::Pending && self.poll_stats.first_poll is None {
                    Some(at)
                } else {
                    self.poll_stats.first_poll
                },
                ..self.poll_stats
            },
            task_id: if self.task_id is None {
                Some(task_id)
            } else {
                self.task_id
            },
            resource_id: if self.resource_id is None {
                Some(resource_id)
            } else {
                self.resource_id
            },
            ..self
        }
    }

    pub open spec fn update_view(self) -> AsyncOpStatsUpdate {
        AsyncOpStatsUpdate {
            poll_stats: self.poll_stats.update_view(),
            created_at: self.created_at,
            total_time: lifetime(self.created_at, self.closed_at),
            resource_id: self.resource_id,
            task_id: self.task_id,
        }
    }

    pub fn record_poll(&mut self, at: u64, resource_id: u64, task_id: u64, readiness: Readiness)
        ensures
            *final(self) == old(self).polled(at, resource_id, task_id, readiness),
    {
        self.poll_stats.polls = self.poll_stats.polls.saturating_add(1);
        if self.task_id.is_none() {
            self.task_id = Some(task_id);
        }
        if self.resource_id.is_none() {
            self.resource_id = Some(resource_id);
        }
        let pending = match readiness {
            Readiness::Pending => true,
            Readiness::Ready => false,
        };
        if pending && self.poll_stats.first_poll.is_none() {
            self.poll_stats.first_poll = Some(at);
        }
    }
}

impl Default for AsyncOpStats {
    fn default() -> (r: AsyncOpStats)
        ensures
            r == AsyncOpStats::fresh(None),
    {
        AsyncOpStats::new(None)
    }
}

impl Closable for AsyncOpStats {
    open spec fn closed_time(&self) -> Option<u64> {
        self.closed_at
    }

    fn closed_at(&self) -> (r: Option<u64>) {
        self.closed_at
    }
}

impl ToProto for AsyncOpStats {
    type Output = AsyncOpStatsUpdate;

    open spec fn proto_view(&self) -> AsyncOpStatsUpdate {
        self.update_view()
    }

    fn to_proto(&self) -> (r: AsyncOpStatsUpdate) {
        AsyncOpStatsUpdate {
            poll_stats: self.poll_stats.to_proto(),
            created_at: self.created_at,
            total_time: total_time(self.created_at, self.closed_at),
            resource_id: self.resource_id,
            task_id: self.task_id,
        }
    }
}

} // verus!
