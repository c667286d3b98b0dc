//! Tables of entities keyed by span id, each entry with a dirty bit that
//! records whether it changed since it was last published.
use vstd::prelude::*;
use crate::poll::elapsed;
use crate::poll::elapsed_nanos;

verus! {

/// An entity that may be closed at some time.
pub trait Closable {
    spec fn closed_time(&self) -> Option<u64>;

    fn closed_at(&self) -> (r: Option<u64>)
        ensures
            r == self.closed_time(),
    ;
}

/// An entity that has a representation for clients.
pub trait ToProto {
    type Output: View;

    spec fn proto_view(&self) -> <Self::Output as View>::V;

    fn to_proto(&self) -> (r: Self::Output)
        ensures
            r@ == self.proto_view(),
    ;
}

/// One row of an [`IdData`] table.
pub struct Entry<T> {
    pub id: u64,
    pub value: T,
    /// Whether the row changed since it was last published.
    pub dirty: bool,
}

/// Which rows a snapshot of a table holds.
#[derive(Clone, Copy, Debug, PartialEq, Eq)]
pub enum Include {
    All,
    UpdatedOnly,
}

/// A table of rows keyed by span id, in order of first insertion, with at
/// most one row per id.
pub struct IdData<T> {
    entries: Vec<Entry<T>>,
}

impl<T> View for IdData<T> {
    type V = Seq<Entry<T>>;

    closed spec fn view(&self) -> Seq<Entry<T>> {
        self.entries@
    }
}

pub open spec fn has_id<T>(s: Seq<Entry<T>>, id: u64) -> bool {
    exists|i: int| 0 <= i < s.len() && s[i].id == id
}

pub open spec fn unique_ids<T>(s: Seq<Entry<T>>) -> bool {
    forall|i: int, j: int| 0 <= i < s.len() && 0 <= j < s.len() && s[i].id == s[j].id ==> i == j
}

/// The position of the row for `id`.
pub open spec fn index_of<T>(s: Seq<Entry<T>>, id: u64) -> int {
    choose|i: int| 0 <= i < s.len() && s[i].id == id
}

/// The value stored for `id`.
pub open spec fn value_of<T>(s: Seq<Entry<T>>, id: u64) -> T {
    s[index_of(s, id)].value
}

/// The table after `id` is set to `v` and marked dirty.
pub open spec fn with_insert<T>(s: Seq<Entry<T>>, id: u64, v: T) -> Seq<Entry<T>> {
    if has_id(s, id) {
        s.update(index_of(s, id), Entry { id, value: v, dirty: true })
    } else {
        s.push(Entry { id, value: v, dirty: true })
    }
}

/// The table after the row for `id`, if any, is changed by `f` and marked dirty.
pub open spec fn with_update<T>(s: Seq<Entry<T>>, id: u64, f: spec_fn(T) -> T) -> Seq<Entry<T>> {
    if has_id(s, id) {
        s.update(index_of(s, id), Entry { id, value: f(value_of(s, id)), dirty: true })
    } else {
        s
    }
}

/// Whether `t` is `s` with the row for `id`, if any, marked dirty and its
/// value changed as `rel` allows.
pub open spec fn updated_by<T>(s: Seq<Entry<T>>, t: Seq<Entry<T>>, id: u64, rel: spec_fn(T, T) -> bool) -> bool {
    if has_id(s, id) {
        let i = index_of(s, id);
        &&& t.len() == s.len()
        &&& t[i].id == id
        &&& t[i].dirty
        &&& rel(s[i].value, t[i].value)
        &&& forall|k: int| 0 <= k < s.len() && k != i ==> t[k] == s[k]
    } else {
        t == s
    }
}

/// The table with a row for `id`, added with value `d` if there was none.
pub open spec fn with_default<T>(s: Seq<Entry<T>>, id: u64, d: T) -> Seq<Entry<T>> {
    if has_id(s, id) {
        s
    } else {
        s.push(Entry { id, value: d, dirty: true })
    }
}

/// The table with every dirty bit cleared.
pub open spec fn cleared<T>(s: Seq<Entry<T>>) -> Seq<Entry<T>> {
    s.map_values(|e: Entry<T>| Entry { id: e.id, value: e.value, dirty: false })
}

/// The client representations of the dirty rows, in table order.
pub open spec fn dirty_views<T: ToProto>(s: Seq<Entry<T>>) -> Seq<<T::Output as View>::V>
    decreases s.len(),
{
    if s.len() == 0 {
        Seq::empty()
    } else if s.last().dirty {
        dirty_views(s.drop_last()).push(s.last().value.proto_view())
    } else {
        dirty_views(s.drop_last())
    }
}

/// The ids and client representations of the dirty rows, in table order.
pub open spec fn dirty_pairs<T: ToProto>(s: Seq<Entry<T>>) -> Seq<(u64, <T::Output as View>::V)>
    decreases s.len(),
{
    if s.len() == 0 {
        Seq::empty()
    } else if s.last().dirty {
        dirty_pairs(s.drop_last()).push((s.last().id, s.last().value.proto_view()))
    } else {
        dirty_pairs(s.drop_last())
    }
}

/// The client representations of all rows, in table order.
pub open spec fn all_views<T: ToProto>(s: Seq<Entry<T>>) -> Seq<<T::Output as View>::V> {
    s.map_values(|e: Entry<T>| e.value.proto_view())
}

/// The ids and client representations of all rows, in table order.
pub open spec fn all_pairs<T: ToProto>(s: Seq<Entry<T>>) -> Seq<(u64, <T::Output as View>::V)> {
    s.map_values(|e: Entry<T>| (e.id, e.value.proto_view()))
}

pub open spec fn out_views<O: View>(r: Seq<O>) -> Seq<O::V> {
    r.map_values(|o: O| o@)
}

pub open spec fn pair_views<O: View>(r: Seq<(u64, O)>) -> Seq<(u64, O::V)> {
    r.map_values(|p: (u64, O)| (p.0, p.1@))
}

/// Whether retention keeps a stats row: it is open, or its final state is
/// still owed to a watcher, or it closed no longer than `retention` ago.
pub open spec fn keeps<R: Closable>(e: Entry<R>, now: u64, retention: u64, has_watchers: bool) -> bool {
    match e.value.closed_time() {
        None => true,
        Some(closed) => (has_watchers && e.dirty) || elapsed(closed, now) <= retention,
    }
}

/// The rows of `s` that satisfy `p`, in order.
pub open spec fn filter_rows<T>(s: Seq<Entry<T>>, p: spec_fn(Entry<T>) -> bool) -> Seq<Entry<T>>
    decreases s.len(),
{
    if s.len() == 0 {
        Seq::empty()
    } else if p(s.last()) {
        filter_rows(s.drop_last(), p).push(s.last())
    } else {
        filter_rows(s.drop_last(), p)
    }
}

/// The stats rows that retention keeps, in order.
pub open spec fn retained<R: Closable>(
    s: Seq<Entry<R>>,
    now: u64,
    retention: u64,
    has_watchers: bool,
) -> Seq<Entry<R>> {
    filter_rows(s, |e: Entry<R>| keeps(e, now, retention, has_watchers))
}

/// The rows of `s` whose id has a row in `stats`, in order.
pub open spec fn with_stats_in<T, R>(s: Seq<Entry<T>>, stats: Seq<Entry<R>>) -> Seq<Entry<T>> {
    filter_rows(s, |e: Entry<T>| has_id(stats, e.id))
}

/// Filtering keeps ids unique and adds no id.
pub proof fn lemma_filter_rows_unique<T>(s: Seq<Entry<T>>, p: spec_fn(Entry<T>) -> bool)
    requires
        unique_ids(s),
    ensures
        unique_ids(filter_rows(s, p)),
        forall|id: u64| has_id(filter_rows(s, p), id) ==> has_id(s, id),
    decreases s.len(),
{
    if s.len() > 0 {
        let init = s.drop_last();
        assert(init.len() == s.len() - 1);
        assert(forall|k: int| 0 <= k < init.len() ==> init[k] == s[k]);
        assert(unique_ids(init)) by {
            assert forall|i: int, j: int|
                0 <= i < init.len() && 0 <= j < init.len() && init[i].id == init[j].id implies i
                == j by {
                assert(init[i] == s[i] && init[j] == s[j]);
            }
        }
        lemma_filter_rows_unique(init, p);
        let r0 = filter_rows(init, p);
        if p(s.last()) {
            let r = r0.push(s.last());
            assert forall|i: int, j: int|
                0 <= i < r.len() && 0 <= j < r.len() && r[i].id == r[j].id implies i == j by {
                if i < r0.len() && j < r0.len() {
                    assert(r0[i].id == r0[j].id);
                } else if i < r0.len() {
                    assert(r[i] == r0[i]);
                    assert(r[j] == s.last());
                    assert(has_id(r0, r0[i].id));
                    assert(has_id(init, r0[i].id));
                    let m = choose|m: int| 0 <= m < init.len() && init[m].id == r0[i].id;
                    assert(init[m] == s[m]);
                    assert(s[m].id == s[s.len() - 1].id);
                } else if j < r0.len() {
                    assert(r[j] == r0[j]);
                    assert(r[i] == s.last());
                    assert(has_id(r0, r0[j].id));
                    assert(has_id(init, r0[j].id));
                    let m = choose|m: int| 0 <= m < init.len() && init[m].id == r0[j].id;
                    assert(init[m] == s[m]);
                    assert(s[m].id == s[s.len() - 1].id);
                }
            }
            assert forall|id: u64| has_id(r, id) implies has_id(s, id) by {
                let k = choose|k: int| 0 <= k < r.len() && r[k].id == id;
                if k < r0.len() {
                    assert(r[k] == r0[k]);
                    assert(has_id(r0, id));
                    assert(has_id(init, id));
                    let m = choose|m: int| 0 <= m < init.len() && init[m].id == id;
                    assert(s[m].id == id);
                } else {
                    assert(s[s.len() - 1].id == id);
                }
            }
        } else {
            assert forall|id: u64| has_id(r0, id) implies has_id(s, id) by {
                assert(has_id(init, id));
                let m = choose|m: int| 0 <= m < init.len() && init[m].id == id;
                assert(s[m].id == id);
            }
        }
    }
}

impl<T> IdData<T> {
    pub open spec fn wf(&self) -> bool {
        unique_ids(self@)
    }

    pub fn new() -> (r: IdData<T>)
        ensures
            r@ == Seq::<Entry<T>>::empty(),
            r.wf(),
    {
        IdData { entries: Vec::new() }
    }

    pub fn len(&self) -> (r: usize)
        ensures
            r == self@.len(),
    {
        self.entries.len()
    }

    /// The position of the row for `id`, if there is one.
    pub fn find(&self, id: u64) -> (r: Option<usize>)
        requires
            self.wf(),
        ensures
            match r {
                Some(i) => has_id(self@, id) && i == index_of(self@, id) && i < self@.len(),
                None => !has_id(self@, id),
            },
    {
        let mut i: usize = 0;
        while i < self.entries.len()
            invariant
                self.wf(),
                i <= self.entries@.len(),
                forall|k: int| 0 <= k < i ==> self.entries@[k].id != id,
            decreases self.entries@.len() - i,
        {
            if self.entries[i].id == id {
                proof {
                    assert(self.entries@[i as int].id == id);
                    assert(has_id(self.entries@, id));
                    let j = index_of(self.entries@, id);
                    assert(self.entries@[j].id == id);
                    assert(self@ == self.entries@);
                    assert(unique_ids(self@));
                    assert(self@[j].id == self@[i as int].id);
                    assert(j == i);
                }
                return Some(i);
            }
            i = i + 1;
        }
        None
    }

    /// Sets the row for `id` to `data`, marked dirty.
    pub fn insert(&mut self, id: u64, data: T)
        requires
            old(self).wf(),
        ensures
            final(self).wf(),
            final(self)@ == with_insert(old(self)@, id, data),
    {
        match self.find(id) {
            Some(i) => {
                self.entries.set(i, Entry { id, value: data, dirty: true });
            },
            None => {
                self.entries.push(Entry { id, value: data, dirty: true });
            },
        }
    }

    /// The value stored for `id`, if any; the dirty bit is left as it is.
    pub fn get(&self, id: u64) -> (r: Option<&T>)
        requires
            self.wf(),
        ensures
            match r {
                Some(v) => has_id(self@, id) && *v == value_of(self@, id),
                None => !has_id(self@, id),
            },
    {
        match self.find(id) {
            Some(i) => Some(&self.entries[i].value),
            None => None,
        }
    }

    /// Mutable access to the value at position `i`, whose row is marked dirty.
    pub fn value_mut(&mut self, i: usize) -> (r: &mut T)
        requires
            i < old(self)@.len(),
        ensures
            *r == old(self)@[i as int].value,
            final(self)@ == old(self)@.update(
                i as int,
                Entry { id: old(self)@[i as int].id, value: *final(r), dirty: true },
            ),
            old(self).wf() ==> final(self).wf(),
    {
        self.entries[i].dirty = true;
        &mut self.entries[i].value
    }

    /// The position of the row for `id`, which is added with value `default`
    /// if there was none.
    pub fn find_or_insert(&mut self, id: u64, default: T) -> (r: usize)
        requires
            old(self).wf(),
        ensures
            final(self).wf(),
            final(self)@ == with_default(old(self)@, id, default),
            r < final(self)@.len(),
            r == index_of(final(self)@, id),
            has_id(final(self)@, id),
    {
        match self.find(id) {
            Some(i) => i,
            None => {
                self.entries.push(Entry { id, value: default, dirty: true });
                let i = self.entries.len() - 1;
                proof {
                    assert(self.entries@[i as int].id == id);
                    assert(has_id(self.entries@, id));
                    let j = index_of(self.entries@, id);
                    assert(self.entries@[j].id == id);
                }
                i
            },
        }
    }
}


impl<T: ToProto> IdData<T> {
    /// The client representations of all rows; dirty bits are left as they are.
    pub fn all(&self) -> (r: Vec<T::Output>)
        ensures
            out_views(r@) == all_views(self@),
    {
        let mut r: Vec<T::Output> = Vec::new();
        let mut i: usize = 0;
        while i < self.entries.len()
            invariant
                i <= self.entries@.len(),
                out_views(r@) == all_views(self@.subrange(0, i as int)),
            decreases self.entries@.len() - i,
        {
            let o = self.entries[i].value.to_proto();
            proof {
                assert(out_views(r@.push(o)) =~= out_views(r@).push(o@));
                assert(all_views(self@.subrange(0, i + 1)) =~= all_views(self@.subrange(0, i as int)).push(
                    self@[i as int].value.proto_view(),
                ));
            }
            r.push(o);
            i = i + 1;
        }
        assert(self@.subrange(0, i as int) =~= self@);
        r
    }

    /// The client representations of the dirty rows, clearing every dirty bit.
    pub fn since_last_update(&mut self) -> (r: Vec<T::Output>)
        requires
            old(self).wf(),
        ensures
            out_views(r@) == dirty_views(old(self)@),
            final(self)@ == cleared(old(self)@),
            final(self).wf(),
    {
        let ghost start = self@;
        let mut r: Vec<T::Output> = Vec::new();
        let mut i: usize = 0;
        while i < self.entries.len()
            invariant
                i <= self.entries@.len(),
                self@.len() == start.len(),
                forall|k: int| 0 <= k < i ==> #[trigger] self@[k] == (Entry { dirty: false, ..start[k] }),
                forall|k: int| i <= k < start.len() ==> #[trigger] self@[k] == start[k],
                out_views(r@) == dirty_views(start.subrange(0, i as int)),
            decreases self.entries@.len() - i,
        {
            proof {
                assert(start.subrange(0, i + 1).drop_last() =~= start.subrange(0, i as int));
            }
            if self.entries[i].dirty {
                let o = self.entries[i].value.to_proto();
                proof {
                    assert(out_views(r@.push(o)) =~= out_views(r@).push(o@));
                }
                r.push(o);
                self.entries[i].dirty = false;
            }
            i = i + 1;
        }
        assert(start.subrange(0, i as int) =~= start);
        assert(self@ =~= cleared(start));
        r
    }

    /// The ids and client representations of the rows that `selection` names.
    /// Taking the updated rows clears every dirty bit.
    pub fn as_proto(&mut self, selection: Include) -> (r: Vec<(u64, T::Output)>)
        requires
            old(self).wf(),
        ensures
            final(self).wf(),
            selection == Include::All ==> pair_views(r@) == all_pairs(old(self)@) && final(self)@
                == old(self)@,
            selection == Include::UpdatedOnly ==> pair_views(r@) == dirty_pairs(old(self)@)
                && final(self)@ == cleared(old(self)@),
    {
        let ghost start = self@;
        let mut r: Vec<(u64, T::Output)> = Vec::new();
        let mut i: usize = 0;
        let only_dirty = match selection {
            Include::All => false,
            Include::UpdatedOnly => true,
        };
        while i < self.entries.len()
            invariant
                i <= self.entries@.len(),
                self@.len() == start.len(),
                only_dirty == (selection == Include::UpdatedOnly),
                only_dirty ==> forall|k: int|
                    0 <= k < i ==> #[trigger] self@[k] == (Entry { dirty: false, ..start[k] }),
                !only_dirty ==> forall|k: int| 0 <= k < i ==> #[trigger] self@[k] == start[k],
                forall|k: int| i <= k < start.len() ==> #[trigger] self@[k] == start[k],
                only_dirty ==> pair_views(r@) == dirty_pairs(start.subrange(0, i as int)),
                !only_dirty ==> pair_views(r@) == all_pairs(start.subrange(0, i as int)),
            decreases self.entries@.len() - i,
        {
            proof {
                assert(start.subrange(0, i + 1).drop_last() =~= start.subrange(0, i as int));
            }
            if !only_dirty || self.entries[i].dirty {
                let o = self.entries[i].value.to_proto();
                let id = self.entries[i].id;
                proof {
                    assert(pair_views(r@.push((id, o))) =~= pair_views(r@).push((id, o@)));
                    assert(all_pairs(start.subrange(0, i + 1)) =~= all_pairs(start.subrange(0, i as int)).push(
                        (start[i as int].id, start[i as int].value.proto_view()),
                    ));
                }
                r.push((id, o));
                if only_dirty {
                    self.entries[i].dirty = false;
                }
            }
            i = i + 1;
        }
        assert(start.subrange(0, i as int) =~= start);
        if only_dirty {
            assert(self@ =~= cleared(start));
        } else {
            assert(self@ =~= start);
        }
        r
    }
}

impl<T> IdData<T> {
    /// Drops the closed stats rows that retention no longer keeps, then the
    /// rows of this table whose id has no stats row left.
    pub fn drop_closed<R: Closable>(
        &mut self,
        stats: &mut IdData<R>,
        now: u64,
        retention: u64,
        has_watchers: bool,
    )
        requires
            old(self).wf(),
            old(stats).wf(),
        ensures
            final(stats)@ == retained(old(stats)@, now, retention, has_watchers),
            final(self)@ == with_stats_in(old(self)@, final(stats)@),
            final(self).wf(),
            final(stats).wf(),
    {
        let ghost stats_start = stats@;
        let mut old_stats: Vec<Entry<R>> = Vec::new();
        std::mem::swap(&mut old_stats, &mut stats.entries);
        for e in it: old_stats.into_iter()
            invariant
                it.seq() == stats_start,
                stats@ == retained(stats_start.subrange(0, it.index() as int), now, retention, has_watchers),
        {
            proof {
                assert(stats_start.subrange(0, it.index() + 1).drop_last() =~= stats_start.subrange(0, it.index() as int));
            }
            let keep = match e.value.closed_at() {
                None => true,
                Some(closed) => (has_watchers && e.dirty) || elapsed_nanos(closed, now) <= retention,
            };
            if keep {
                stats.entries.push(e);
            }
        }
        assert(stats_start.subrange(0, stats_start.len() as int) =~= stats_start);
        proof {
            lemma_filter_rows_unique(stats_start, |e: Entry<R>| keeps(e, now, retention, has_watchers));
        }

        let ghost start = self@;
        let mut old_entries: Vec<Entry<T>> = Vec::new();
        std::mem::swap(&mut old_entries, &mut self.entries);
        for e in it: old_entries.into_iter()
            invariant
                it.seq() == start,
                stats.wf(),
                self@ == with_stats_in(start.subrange(0, it.index() as int), stats@),
        {
            proof {
                assert(start.subrange(0, it.index() + 1).drop_last() =~= start.subrange(0, it.index() as int));
            }
            if stats.find(e.id).is_some() {
                self.entries.push(e);
            }
        }
        assert(start.subrange(0, start.len() as int) =~= start);
        proof {
            lemma_filter_rows_unique(start, |e: Entry<T>| has_id(stats@, e.id));
        }
    }
}

/// Every row that filtering keeps satisfies the predicate and comes from `s`.
pub proof fn lemma_filter_rows_members<T>(s: Seq<Entry<T>>, p: spec_fn(Entry<T>) -> bool)
    ensures
        forall|k: int|
            0 <= k < filter_rows(s, p).len() ==> p(#[trigger] filter_rows(s, p)[k]) && exists|m: int|
                0 <= m < s.len() && filter_rows(s, p)[k] == s[m],
    decreases s.len(),
{
    if s.len() > 0 {
        let init = s.drop_last();
        lemma_filter_rows_members(init, p);
        let r0 = filter_rows(init, p);
        let r = filter_rows(s, p);
        assert forall|k: int| 0 <= k < r.len() implies p(#[trigger] r[k]) && exists|m: int|
            0 <= m < s.len() && r[k] == s[m] by {
            if k < r0.len() {
                assert(r[k] == r0[k]);
                let m = choose|m: int| 0 <= m < init.len() && r0[k] == init[m];
                assert(init[m] == s[m]);
            } else {
                assert(r[k] == s[s.len() - 1]);
            }
        }
    }
}

proof fn lemma_cleared_drop_last<T>(s: Seq<Entry<T>>)
    requires
        s.len() > 0,
    ensures
        cleared(s).drop_last() == cleared(s.drop_last()),
        cleared(s).last() == (Entry { id: s.last().id, value: s.last().value, dirty: false }),
{
    assert(cleared(s).drop_last() =~= cleared(s.drop_last()));
}

proof fn lemma_nothing_dirty_after_clear<T: ToProto>(s: Seq<Entry<T>>)
    ensures
        dirty_views(cleared(s)) == Seq::<<T::Output as View>::V>::empty(),
        dirty_pairs(cleared(s)) == Seq::<(u64, <T::Output as View>::V)>::empty(),
    decreases s.len(),
{
    if s.len() > 0 {
        lemma_cleared_drop_last(s);
        lemma_nothing_dirty_after_clear(s.drop_last());
    }
}

proof fn lemma_dirty_pairs_are_filtered<T: ToProto>(s: Seq<Entry<T>>)
    ensures
        dirty_pairs(s) == filter_rows(s, |e: Entry<T>| e.dirty).map_values(
            |e: Entry<T>| (e.id, e.value.proto_view()),
        ),
    decreases s.len(),
{
    if s.len() > 0 {
        lemma_dirty_pairs_are_filtered(s.drop_last());
        let f = |e: Entry<T>| (e.id, e.value.proto_view());
        let r0 = filter_rows(s.drop_last(), |e: Entry<T>| e.dirty);
        assert(r0.push(s.last()).map_values(f) =~= r0.map_values(f).push(f(s.last())));
    }
}

/// A row is handed out as updated at most once between two writes to it:
/// one call hands out each id at most once, and right after it, a second
/// call hands out nothing.
pub proof fn lemma_updates_handed_out_once<T: ToProto>(s: Seq<Entry<T>>)
    requires
        unique_ids(s),
    ensures
        forall|i: int, j: int|
            0 <= i < j < dirty_pairs(s).len() ==> dirty_pairs(s)[i].0 != dirty_pairs(s)[j].0,
        dirty_views(cleared(s)) == Seq::<<T::Output as View>::V>::empty(),
        dirty_pairs(cleared(s)) == Seq::<(u64, <T::Output as View>::V)>::empty(),
{
    lemma_nothing_dirty_after_clear(s);
    lemma_dirty_pairs_are_filtered(s);
    let p = |e: Entry<T>| e.dirty;
    lemma_filter_rows_unique(s, p);
    let r = filter_rows(s, p);
    assert forall|i: int, j: int| 0 <= i < j < dirty_pairs(s).len() implies dirty_pairs(
        s,
    )[i].0 != dirty_pairs(s)[j].0 by {
        assert(dirty_pairs(s)[i].0 == r[i].id);
        assert(dirty_pairs(s)[j].0 == r[j].id);
    }
}

/// A stats row closed more than `retention` ago, with no watcher attached,
/// is gone after `drop_closed`: from the stats table and from its partner.
pub proof fn lemma_expired_rows_dropped<T, R: Closable>(
    entities: Seq<Entry<T>>,
    stats: Seq<Entry<R>>,
    now: u64,
    retention: u64,
    id: u64,
)
    requires
        unique_ids(stats),
        has_id(stats, id),
        value_of(stats, id).closed_time() is Some,
        now > value_of(stats, id).closed_time()->Some_0 + retention,
    ensures
        !has_id(retained(stats, now, retention, false), id),
        !has_id(with_stats_in(entities, retained(stats, now, retention, false)), id),
{
    let p = |e: Entry<R>| keeps(e, now, retention, false);
    let kept = retained(stats, now, retention, false);
    lemma_filter_rows_members(stats, p);
    if has_id(kept, id) {
        let k = choose|k: int| 0 <= k < kept.len() && kept[k].id == id;
        assert(p(kept[k]));
        let m = choose|m: int| 0 <= m < stats.len() && kept[k] == stats[m];
        let i = index_of(stats, id);
        assert(stats[i].id == id);
        assert(stats[m].id == stats[i].id);
    }
    let q = |e: Entry<T>| has_id(kept, e.id);
    lemma_filter_rows_members(entities, q);
    let left = with_stats_in(entities, kept);
    if has_id(left, id) {
        let k = choose|k: int| 0 <= k < left.len() && left[k].id == id;
        assert(q(left[k]));
    }
}

/// Every dirty row is among the rows handed out as updated, with its id and
/// client representation.
pub proof fn lemma_dirty_row_listed<T: ToProto>(s: Seq<Entry<T>>, i: int)
    requires
        0 <= i < s.len(),
        s[i].dirty,
    ensures
        exists|k: int|
            0 <= k < dirty_pairs(s).len() && #[trigger] dirty_pairs(s)[k] == (
                s[i].id,
                s[i].value.proto_view(),
            ),
    decreases s.len(),
{
    if i == s.len() - 1 {
        let k = dirty_pairs(s.drop_last()).len() as int;
        assert(dirty_pairs(s)[k] == (s[i].id, s[i].value.proto_view()));
    } else {
        lemma_dirty_row_listed(s.drop_last(), i);
        let k = choose|k: int|
            0 <= k < dirty_pairs(s.drop_last()).len() && #[trigger] dirty_pairs(s.drop_last())[k] == (
                s.drop_last()[i].id,
                s.drop_last()[i].value.proto_view(),
            );
        assert(dirty_pairs(s)[k] == dirty_pairs(s.drop_last())[k]);
    }
}

/// A row written with `v` is handed out by the next call of
/// `since_last_update` or `as_proto(Include::UpdatedOnly)`, with the client
/// representation of `v`, exactly once.
pub proof fn lemma_written_row_handed_out<T: ToProto>(s: Seq<Entry<T>>, id: u64, v: T)
    requires
        unique_ids(s),
    ensures
        exists|k: int|
            0 <= k < dirty_pairs(with_insert(s, id, v)).len() && #[trigger] dirty_pairs(
                with_insert(s, id, v),
            )[k] == (id, v.proto_view()),
        forall|i: int, j: int|
            0 <= i < j < dirty_pairs(with_insert(s, id, v)).len() ==> dirty_pairs(
                with_insert(s, id, v),
            )[i].0 != dirty_pairs(with_insert(s, id, v))[j].0,
{
    let t = with_insert(s, id, v);
    let i = if has_id(s, id) {
        index_of(s, id)
    } else {
        s.len() as int
    };
    assert(t[i].id == id && t[i].value == v && t[i].dirty);
    assert(unique_ids(t)) by {
        assert forall|a: int, b: int| 0 <= a < t.len() && 0 <= b < t.len() && t[a].id == t[b].id implies a == b by {
            if a != i && b != i {
                assert(s[a].id == s[b].id);
            } else if a == i && b != i {
                assert(s[b].id == id);
                assert(has_id(s, id));
                assert(s[index_of(s, id)].id == id);
            } else if b == i && a != i {
                assert(s[a].id == id);
                assert(has_id(s, id));
                assert(s[index_of(s, id)].id == id);
            }
        }
    }
    lemma_dirty_row_listed(t, i);
    lemma_updates_handed_out_once(t);
}

/// The updated client representations are the second halves of the updated pairs.
pub proof fn lemma_dirty_views_of_pairs<T: ToProto>(s: Seq<Entry<T>>)
    ensures
        dirty_views(s) == dirty_pairs(s).map_values(|p: (u64, <T::Output as View>::V)| p.1),
    decreases s.len(),
{
    if s.len() > 0 {
        lemma_dirty_views_of_pairs(s.drop_last());
        let f = |p: (u64, <T::Output as View>::V)| p.1;
        let p0 = dirty_pairs(s.drop_last());
        assert(p0.push((s.last().id, s.last().value.proto_view())).map_values(f) =~= p0.map_values(
            f,
        ).push(s.last().value.proto_view()));
    }
}

} // verus!
