//! The queue of users enrolled in autoplay, ordered by accumulated play time.
//! It is held in the `priority_queue` crate's `PriorityQueue`, with the time
//! wrapped in `Reverse` so that the user with the least time comes out first.

use vstd::prelude::*;
use priority_queue::PriorityQueue;
use std::cmp::Reverse;
use std::hash::Hash;

verus! {

#[verifier::external_type_specification]
#[verifier::external_body]
#[verifier::reject_recursive_types(I)]
#[verifier::reject_recursive_types(P)]
#[verifier::reject_recursive_types(H)]
pub struct ExPriorityQueue<I: Hash + Eq, P: Ord, H>(PriorityQueue<I, P, H>);

#[verifier::external_type_specification]
#[verifier::external_body]
#[verifier::reject_recursive_types(T)]
pub struct ExReverse<T>(Reverse<T>);

/// The queue of enrolled users: user id to accumulated play time.
pub type UserTimeQueue = PriorityQueue<i64, Reverse<i64>>;

/// What a user-time queue holds: each enrolled user and their accumulated time.
pub uninterp spec fn enrolled_times(q: PriorityQueue<i64, Reverse<i64>>) -> Map<i64, i64>;

/// The smallest time in `m` is `t`, held by `u`.
pub open spec fn is_least_entry(m: Map<i64, i64>, u: i64, t: i64) -> bool {
    &&& m.contains_key(u)
    &&& m[u] == t
    &&& forall|v: i64| #[trigger] m.contains_key(v) ==> t <= m[v]
}

/// `PriorityQueue::new`: an empty queue.
#[verifier::external_body]
pub(crate) fn queue_new() -> (q: UserTimeQueue)
    ensures
        enrolled_times(q).dom().is_empty(),
{
    PriorityQueue::new()
}

/// `PriorityQueue::clone`: a queue with the same users and times.
#[verifier::external_body]
pub(crate) fn queue_clone(q: &UserTimeQueue) -> (r: UserTimeQueue)
    ensures
        enrolled_times(r) == enrolled_times(*q),
{
    q.clone()
}

/// `PriorityQueue::push`: sets the user's time, inserting the user when absent,
/// and gives back the time the user had before, if any.
#[verifier::external_body]
pub(crate) fn queue_push(q: &mut UserTimeQueue, user: i64, time: i64) -> (prev: Option<i64>)
    ensures
        enrolled_times(*final(q)) == enrolled_times(*old(q)).insert(user, time),
        prev == (if enrolled_times(*old(q)).contains_key(user) {
            Some(enrolled_times(*old(q))[user])
        } else {
            None
        }),
{
    match q.push(user, Reverse(time)) {
        Some(Reverse(p)) => Some(p),
        None => None,
    }
}

/// `PriorityQueue::pop`: removes and gives back the entry with the greatest
/// priority, here the least time; `None` when the queue is empty. Among users
/// tied on the least time, which one comes out is not stated.
#[verifier::external_body]
pub(crate) fn queue_pop(q: &mut UserTimeQueue) -> (r: Option<(i64, i64)>)
    ensures
        match r {
            None => enrolled_times(*old(q)).dom().is_empty()
                && enrolled_times(*final(q)) == enrolled_times(*old(q)),
            Some((u, t)) => is_least_entry(enrolled_times(*old(q)), u, t)
                && enrolled_times(*final(q)) == enrolled_times(*old(q)).remove(u),
        },
{
    match q.pop() {
        Some((u, Reverse(t))) => Some((u, t)),
        None => None,
    }
}

/// `PriorityQueue::peek`: the entry with the least time, without removing it.
#[verifier::external_body]
pub(crate) fn queue_peek(q: &UserTimeQueue) -> (r: Option<(i64, i64)>)
    ensures
        match r {
            None => enrolled_times(*q).dom().is_empty(),
            Some((u, t)) => is_least_entry(enrolled_times(*q), u, t),
        },
{
    match q.peek() {
        Some((u, Reverse(t))) => Some((*u, *t)),
        None => None,
    }
}

/// `PriorityQueue::get`: the user's time, if the user is enrolled.
#[verifier::external_body]
pub(crate) fn queue_get(q: &UserTimeQueue, user: i64) -> (r: Option<i64>)
    ensures
        r == (if enrolled_times(*q).contains_key(user) {
            Some(enrolled_times(*q)[user])
        } else {
            None
        }),
{
    match q.get(&user) {
        Some((_, Reverse(t))) => Some(*t),
        None => None,
    }
}

/// `PriorityQueue::remove`: takes the user out and gives back their time.
#[verifier::external_body]
pub(crate) fn queue_remove(q: &mut UserTimeQueue, user: i64) -> (r: Option<i64>)
    ensures
        enrolled_times(*final(q)) == enrolled_times(*old(q)).remove(user),
        r == (if enrolled_times(*old(q)).contains_key(user) {
            Some(enrolled_times(*old(q))[user])
        } else {
            None
        }),
{
    match q.remove(&user) {
        Some((_, Reverse(t))) => Some(t),
        None => None,
    }
}

/// `PriorityQueue::change_priority`: sets the time of an enrolled user and
/// gives back the old one; leaves the queue as it is when the user is absent.
#[verifier::external_body]
pub(crate) fn queue_change_time(q: &mut UserTimeQueue, user: i64, time: i64) -> (prev: Option<i64>)
    ensures
        enrolled_times(*old(q)).contains_key(user) ==> {
            &&& enrolled_times(*final(q)) == enrolled_times(*old(q)).insert(user, time)
            &&& prev == Some(enrolled_times(*old(q))[user])
        },
        !enrolled_times(*old(q)).contains_key(user) ==> {
            &&& enrolled_times(*final(q)) == enrolled_times(*old(q))
            &&& prev is None
        },
{
    match q.change_priority(&user, Reverse(time)) {
        Some(Reverse(p)) => Some(p),
        None => None,
    }
}

/// `PriorityQueue::clear`: removes every user.
#[verifier::external_body]
pub(crate) fn queue_clear(q: &mut UserTimeQueue)
    ensures
        enrolled_times(*final(q)).dom().is_empty(),
{
    q.clear()
}

/// `PriorityQueue::iter`: every enrolled user with their time, each user once,
/// in an order that is not stated.
#[verifier::external_body]
pub(crate) fn queue_entries(q: &UserTimeQueue) -> (r: Vec<(i64, i64)>)
    ensures
        forall|i: int, j: int| 0 <= i < j < r@.len() ==> r@[i].0 != r@[j].0,
        forall|i: int| 0 <= i < r@.len() ==> enrolled_times(*q).contains_key(#[trigger] r@[i].0)
            && enrolled_times(*q)[r@[i].0] == r@[i].1,
        forall|u: i64| enrolled_times(*q).contains_key(u) ==>
            exists|i: int| 0 <= i < r@.len() && #[trigger] r@[i].0 == u,
{
    q.iter().map(|(u, p)| (*u, p.0)).collect()
}

/// The queue's `Debug` text; nothing is stated of it.
#[verifier::external_body]
pub(crate) fn queue_debug_text(q: &UserTimeQueue) -> String {
    format!("{:?}", q)
}

} // verus!
