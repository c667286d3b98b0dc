//! Delivery of updates to subscribers over bounded `tokio` channels.
use vstd::prelude::*;
use tokio::sync::mpsc::Sender;

verus! {

#[verifier::external_type_specification]
#[verifier::external_body]
#[verifier::reject_recursive_types(T)]
pub struct ExSender<T>(Sender<T>);

/// Relies on tokio's `Sender::try_reserve` and `Permit::send`: without
/// waiting, a copy of `value` is queued if the channel is open and has room,
/// and `true` says that it was.
#[verifier::external_body]
pub(crate) fn try_deliver<T: Clone>(tx: &Sender<T>, value: &T) -> (r: bool) {
    match tx.try_reserve() {
        Ok(permit) => {
            permit.send(value.clone());
            true
        },
        Err(_) => false,
    }
}

/// The elements of `s` whose flag in `mask` is set, in order.
pub open spec fn kept_by<A>(s: Seq<A>, mask: Seq<bool>) -> Seq<A>
    decreases s.len(),
{
    if s.len() == 0 || mask.len() != s.len() {
        Seq::empty()
    } else if mask.last() {
        kept_by(s.drop_last(), mask.drop_last()).push(s.last())
    } else {
        kept_by(s.drop_last(), mask.drop_last())
    }
}

/// The subscribers whose delivery succeeded, in order.
pub fn keep_delivered<T>(watchers: Vec<Sender<T>>, delivered: &Vec<bool>) -> (r: Vec<Sender<T>>)
    requires
        delivered@.len() == watchers@.len(),
    ensures
        r@ == kept_by(watchers@, delivered@),
{
    let ghost start = watchers@;
    let mut r: Vec<Sender<T>> = Vec::new();
    let mut i: usize = 0;
    for w in it: watchers.into_iter()
        invariant
            it.seq() == start,
            i == it.index(),
            i <= start.len(),
            delivered@.len() == start.len(),
            r@ == kept_by(start.subrange(0, it.index() as int), delivered@.subrange(0, it.index() as int)),
    {
        assert(i < delivered.len());
        proof {
            assert(start.subrange(0, i + 1).drop_last() =~= start.subrange(0, i as int));
            assert(delivered@.subrange(0, i + 1).drop_last() =~= delivered@.subrange(0, i as int));
        }
        if delivered[i] {
            r.push(w);
        }
        i = i + 1;
    }
    assert(start.subrange(0, start.len() as int) =~= start);
    assert(delivered@.subrange(0, start.len() as int) =~= delivered@);
    r
}

/// Offers `value` to each subscriber once, in order, and keeps exactly those
/// that took it; a subscriber whose channel is closed or full is dropped.
/// Returns, for each subscriber, whether it took the value.
pub fn deliver_to_all<T: Clone>(watchers: &mut Vec<Sender<T>>, value: &T) -> (r: Vec<bool>)
    ensures
        r@.len() == old(watchers)@.len(),
        final(watchers)@ == kept_by(old(watchers)@, r@),
{
    let mut delivered: Vec<bool> = Vec::new();
    let mut i: usize = 0;
    while i < watchers.len()
        invariant
            i <= watchers@.len(),
            watchers@ == old(watchers)@,
            delivered@.len() == i,
        decreases watchers@.len() - i,
    {
        delivered.push(try_deliver(&watchers[i], value));
        i = i + 1;
    }
    let mut pending: Vec<Sender<T>> = Vec::new();
    std::mem::swap(&mut pending, watchers);
    *watchers = keep_delivered(pending, &delivered);
    delivered
}

} // verus!
