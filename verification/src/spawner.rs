//! The spawn queue: where requests wait for the drain phase of the tick.

use vstd::prelude::*;
use crossbeam::queue::SegQueue;
use crate::geometry::{Position, Vec3};
use crate::item::ItemStack;
use crate::queue::{queue_items, queue_len, queue_new, queue_pop, queue_push};
use crate::request::SpawnRequest;

verus! {

/// Queues requests to spawn entities, so that the code that wants an entity
/// needs no write access to the component tables. The entities are created
/// later, when the queue is drained; nothing can be done with one before
/// the next tick.
///
/// The view of a spawner is the sequence of its pending requests, oldest
/// first. The methods take the spawner by `&mut`: each contract describes
/// the queue as its sole holder finds it, before and after the call. The
/// queue itself is lock-free, and [`Spawner::queue`] hands it to code that
/// shares the spawner.
#[derive(Debug)]
pub struct Spawner {
    /// The internal queue of spawn requests.
    queue: SegQueue<SpawnRequest>,
}

impl Spawner {
    /// The pending requests, oldest first.
    pub closed spec fn view(&self) -> Seq<SpawnRequest> {
        queue_items(self.queue)
    }

    /// A spawner with no pending request.
    pub fn new() -> (spawner: Self)
        ensures
            spawner@ == Seq::<SpawnRequest>::empty(),
    {
        Spawner { queue: queue_new() }
    }

    /// Appends a request behind all pending ones. It cannot fail.
    pub fn append(&mut self, request: SpawnRequest)
        ensures
            final(self)@ == old(self)@.push(request),
    {
        queue_push(&mut self.queue, request);
    }

    /// Queues an item entity to be spawned.
    pub fn spawn_item(&mut self, position: Position, velocity: Vec3, item: ItemStack)
        ensures
            final(self)@ == old(self)@.push(SpawnRequest::spec_item(position, velocity, item)),
    {
        let request = SpawnRequest::item(position, velocity, item);
        self.append(request);
    }

    /// Takes the oldest pending request out of the queue, or returns `None`
    /// and leaves the queue as it is when nothing is pending.
    pub fn drain_one(&mut self) -> (request: Option<SpawnRequest>)
        ensures
            old(self)@.len() == 0 ==> request is None && final(self)@ == old(self)@,
            old(self)@.len() > 0 ==> request == Some(old(self)@.first()) && final(self)@ == old(
                self,
            )@.drop_first(),
    {
        queue_pop(&mut self.queue)
    }

    /// The number of pending requests. Counting changes nothing.
    pub fn len(&mut self) -> (len: usize)
        ensures
            len == old(self)@.len(),
            final(self)@ == old(self)@,
    {
        queue_len(&mut self.queue)
    }

    /// The queue itself. Code that shares the spawner with other threads
    /// pushes its requests through this reference, without waiting for
    /// anyone; no contract follows what it pushes.
    pub fn queue(&self) -> (queue: &SegQueue<SpawnRequest>)
        ensures
            queue_items(*queue) == self@,
    {
        &self.queue
    }
}

impl Default for Spawner {
    fn default() -> (spawner: Self)
        ensures
            spawner@ == Seq::<SpawnRequest>::empty(),
    {
        Spawner::new()
    }
}

} // verus!
