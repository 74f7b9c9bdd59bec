//! The drain phase: turning the pending requests into entities.

use vstd::prelude::*;
use specs::Entity;
use crate::request::SpawnRequest;
use crate::spawner::Spawner;
use crate::store::Store;

verus! {

/// System for spawning queued requests in the `Spawner`.
///
/// It keeps nothing from one tick to the next: all state is in the spawner
/// and in the store.
#[derive(Clone, Copy, Debug, Default)]
pub struct SpawnerSystem;

impl SpawnerSystem {
    /// Drains the spawner into the store: takes the pending requests out of
    /// the queue, oldest first, and spawns one entity for each. Afterwards
    /// nothing is pending, and the store holds one new entity and one new
    /// event for each request, the events in the order of the requests.
    ///
    /// A request that is not spawnable is a mistake of the code that queued
    /// it, and the store must have room for the entities.
    pub fn run(&mut self, spawner: &mut Spawner, store: &mut Store)
        requires
            old(store).wf(),
            old(spawner)@.len() <= old(store).spec_room(),
            forall|i: int| 0 <= i < old(spawner)@.len() ==> (#[trigger] old(spawner)@[i]).spawnable(),
        ensures
            final(store).wf(),
            final(spawner)@ == Seq::<SpawnRequest>::empty(),
            old(store)@.drained(old(spawner)@, final(store)@),
            final(store).spec_room() == old(store).spec_room() - old(spawner)@.len(),
    {
        let ghost requests = spawner@;
        let ghost before = store@;
        let ghost room = store.spec_room();
        let ghost mut entities = Seq::<Entity>::empty();

        // Handle spawn requests
        loop
            invariant
                store.wf(),
                entities.len() <= requests.len(),
                spawner@ == requests.skip(entities.len() as int),
                store.spec_room() == room - entities.len(),
                requests.len() <= room,
                forall|i: int| 0 <= i < requests.len() ==> (#[trigger] requests[i]).spawnable(),
                before.admits(entities),
                store@ == before.spawn_all(entities, requests.take(entities.len() as int)),
                forall|entity: Entity|
                    before.entities.dom().contains(entity) ==> store@.entities.dom().contains(entity),
                forall|i: int|
                    0 <= i < entities.len() ==> store@.entities.dom().contains(#[trigger] entities[i]),
            ensures
                entities.len() == requests.len(),
                spawner@.len() == 0,
            decreases spawner@.len(),
        {
            let request = match spawner.drain_one() {
                None => {
                    break;
                },
                Some(request) => request,
            };
            let ghost done = entities.len() as int;
            assert(request == requests[done]);
            let entity = store.spawn(request);
            proof {
                assert(requests.take(done + 1).drop_last() =~= requests.take(done));
                assert(entities.push(entity).drop_last() =~= entities);
                assert(requests.skip(done).drop_first() =~= requests.skip(done + 1));
                entities = entities.push(entity);
            }
        }
        assert(requests.take(entities.len() as int) =~= requests);
        assert(spawner@ =~= Seq::<SpawnRequest>::empty());
    }
}

} // verus!
