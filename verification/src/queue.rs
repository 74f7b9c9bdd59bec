//! The lock-free queue that holds the pending requests.
//!
//! The queue is `crossbeam`'s `SegQueue`. Nothing in this file is proved:
//! each function below calls one method of the queue and states what that
//! method does, as its source shows it. The queue synchronises its callers
//! by itself, so its methods take `&self`. The functions below ask for
//! `&mut` all the same: a caller that holds the queue alone sees it behave
//! as a plain first-in, first-out sequence, and only of such a caller do the
//! contracts speak.

use vstd::prelude::*;
use crossbeam::queue::SegQueue;
use crate::request::SpawnRequest;

verus! {

/// `crossbeam::queue::SegQueue`, of which the verifier sees nothing but
/// what the functions below state.
#[verifier::external_type_specification]
#[verifier::external_body]
#[verifier::reject_recursive_types(T)]
pub struct ExSegQueue<T>(SegQueue<T>);

/// The requests that a queue holds, the one pushed first in front.
pub uninterp spec fn queue_items(queue: SegQueue<SpawnRequest>) -> Seq<SpawnRequest>;

/// `SegQueue::new`: a queue that holds nothing.
#[verifier::external_body]
pub(crate) fn queue_new() -> (queue: SegQueue<SpawnRequest>)
    ensures
        queue_items(queue) == Seq::<SpawnRequest>::empty(),
{
    SegQueue::new()
}

/// `SegQueue::push`: the request goes to the back of the queue. The queue
/// has no bound, so the call always succeeds.
#[verifier::external_body]
pub(crate) fn queue_push(queue: &mut SegQueue<SpawnRequest>, request: SpawnRequest)
    ensures
        queue_items(*final(queue)) == queue_items(*old(queue)).push(request),
{
    queue.push(request)
}

/// `SegQueue::pop`: the request in front leaves the queue and is returned.
/// An empty queue stays as it is and answers with its error, which is
/// handed on as `None`.
#[verifier::external_body]
pub(crate) fn queue_pop(queue: &mut SegQueue<SpawnRequest>) -> (front: Option<SpawnRequest>)
    ensures
        queue_items(*old(queue)).len() == 0 ==> front is None && queue_items(*final(queue))
            == queue_items(*old(queue)),
        queue_items(*old(queue)).len() > 0 ==> front == Some(queue_items(*old(queue)).first())
            && queue_items(*final(queue)) == queue_items(*old(queue)).drop_first(),
{
    queue.pop().ok()
}

/// `SegQueue::len`: the number of requests in the queue. The queue stays as
/// it is. A count taken while others push would be out of date when it
/// arrives, so this too asks for `&mut`.
#[verifier::external_body]
pub(crate) fn queue_len(queue: &mut SegQueue<SpawnRequest>) -> (len: usize)
    ensures
        len == queue_items(*old(queue)).len(),
        queue_items(*final(queue)) == queue_items(*old(queue)),
{
    queue.len()
}

} // verus!
