//! What the spawn queue and the drain phase guarantee together.
//!
//! Every function here is a proof: it states a fact that holds of all
//! inputs, over the same mathematical functions that the contracts of the
//! executable functions use, and Verus checks it.

use vstd::prelude::*;
use specs::Entity;
use crate::entity::{EntitySpawnEvent, EntityType, PositionComponent};
use crate::geometry::{Position, Vec3};
use crate::item::ItemStack;
use crate::request::SpawnRequest;
use crate::store::StoreView;
use crate::world::Components;

verus! {

/// The pending requests after one item has been queued for each element of
/// `inputs`, in their order, behind the requests in `pending`.
pub open spec fn queued_items(
    pending: Seq<SpawnRequest>,
    inputs: Seq<(Position, Vec3, ItemStack)>,
) -> Seq<SpawnRequest>
    decreases inputs.len(),
{
    if inputs.len() == 0 {
        pending
    } else {
        queued_items(pending, inputs.drop_last()).push(
            SpawnRequest::spec_item(inputs.last().0, inputs.last().1, inputs.last().2),
        )
    }
}

/// Queuing items loses nothing and repeats nothing: what was pending stays
/// in front, and behind it stands exactly one request for each input, in
/// the order of the inputs and built from that input alone.
pub proof fn lemma_queued_items_match_inputs(
    pending: Seq<SpawnRequest>,
    inputs: Seq<(Position, Vec3, ItemStack)>,
)
    ensures
        queued_items(pending, inputs).len() == pending.len() + inputs.len(),
        queued_items(pending, inputs).take(pending.len() as int) == pending,
        forall|i: int|
            0 <= i < inputs.len() ==> #[trigger] queued_items(pending, inputs)[pending.len() + i]
                == SpawnRequest::spec_item(inputs[i].0, inputs[i].1, inputs[i].2),
    decreases inputs.len(),
{
    if inputs.len() > 0 {
        lemma_queued_items_match_inputs(pending, inputs.drop_last());
        let shorter = queued_items(pending, inputs.drop_last());
        assert(queued_items(pending, inputs).take(pending.len() as int) =~= shorter.take(
            pending.len() as int,
        ));
        assert forall|i: int| 0 <= i < inputs.len() implies #[trigger] queued_items(
            pending,
            inputs,
        )[pending.len() + i] == SpawnRequest::spec_item(inputs[i].0, inputs[i].1, inputs[i].2) by {
            if i < inputs.len() - 1 {
                assert(inputs.drop_last()[i] == inputs[i]);
                assert(shorter[pending.len() + i] == queued_items(pending, inputs)[pending.len() + i]);
            }
        }
    } else {
        assert(pending.take(pending.len() as int) =~= pending);
    }
}

/// Queued items can always be drained: where every pending request is
/// spawnable, it still is after any number of items has been queued.
pub proof fn lemma_queued_items_spawnable(
    pending: Seq<SpawnRequest>,
    inputs: Seq<(Position, Vec3, ItemStack)>,
)
    requires
        forall|i: int| 0 <= i < pending.len() ==> (#[trigger] pending[i]).spawnable(),
    ensures
        forall|i: int|
            0 <= i < queued_items(pending, inputs).len() ==> (#[trigger] queued_items(
                pending,
                inputs,
            )[i]).spawnable(),
{
    lemma_queued_items_match_inputs(pending, inputs);
    let queued = queued_items(pending, inputs);
    assert forall|i: int| 0 <= i < queued.len() implies (#[trigger] queued[i]).spawnable() by {
        if i < pending.len() {
            assert(queued[i] == queued.take(pending.len() as int)[i]);
        } else {
            let k = i - pending.len();
            assert(queued[pending.len() + k] == SpawnRequest::spec_item(
                inputs[k].0,
                inputs[k].1,
                inputs[k].2,
            ));
        }
    }
}

/// A request of a kind other than item is never spawnable, nor is one whose
/// metadata or extra data belongs to another kind than its own: the drain
/// phase does not accept it.
pub proof fn lemma_only_consistent_items_spawnable(request: SpawnRequest)
    ensures
        request.spawnable() <==> request.ty == EntityType::Item && request.meta.spec_kind()
            == EntityType::Item && request.extra.spec_kind() == EntityType::Item,
{
}

/// A spawned entity has no history: where it is and where it was are the
/// same point, that of its request, bit for bit.
pub proof fn lemma_spawned_without_history(before: StoreView, entity: Entity, request: SpawnRequest)
    ensures
        before.spawn(entity, request).entities[entity].position == Some(
            PositionComponent { current: request.position, previous: request.position },
        ),
{
}

/// What spawning one entity for each request does to a store, spelled out
/// for each entity and each event.
pub proof fn lemma_spawn_all(before: StoreView, entities: Seq<Entity>, requests: Seq<SpawnRequest>)
    requires
        entities.len() == requests.len(),
        before.admits(entities),
    ensures
        ({
            let after = before.spawn_all(entities, requests);
            let published = before.events.len() as int;
            &&& after.events.len() == published + requests.len()
            &&& after.events.take(published) == before.events
            &&& forall|i: int|
                0 <= i < requests.len() ==> #[trigger] after.events[published + i] == (
                EntitySpawnEvent { entity: entities[i], ty: requests[i].ty })
            &&& forall|entity: Entity| #[trigger]
                after.entities.dom().contains(entity) <==> before.entities.dom().contains(entity)
                    || entities.contains(entity)
            &&& forall|i: int|
                0 <= i < requests.len() ==> after.entities[#[trigger] entities[i]]
                    == Components::of_request(requests[i])
            &&& forall|entity: Entity|
                before.entities.dom().contains(entity) ==> #[trigger] after.entities[entity]
                    == before.entities[entity]
        }),
    decreases requests.len(),
{
    let published = before.events.len() as int;
    if requests.len() == 0 {
        assert(before.events.take(published) =~= before.events);
    } else {
        let fewer = entities.drop_last();
        let earlier = requests.drop_last();
        let last = requests.len() - 1;
        assert(before.admits(fewer)) by {
            assert forall|i: int, j: int| 0 <= i < fewer.len() && 0 <= j < fewer.len() && i != j implies fewer[i] != fewer[j] by {
                assert(fewer[i] == entities[i] && fewer[j] == entities[j]);
            }
            assert forall|i: int| 0 <= i < fewer.len() implies !before.entities.dom().contains(
                #[trigger] fewer[i],
            ) by {
                assert(fewer[i] == entities[i]);
            }
        }
        lemma_spawn_all(before, fewer, earlier);
        let middle = before.spawn_all(fewer, earlier);
        let after = before.spawn_all(entities, requests);
        assert(after == middle.spawn(entities[last], requests[last]));
        assert(after.events.take(published) =~= middle.events.take(published));
        assert forall|i: int| 0 <= i < requests.len() implies #[trigger] after.events[published + i]
            == (EntitySpawnEvent { entity: entities[i], ty: requests[i].ty }) by {
            if i < last {
                assert(middle.events[published + i] == after.events[published + i]);
                assert(fewer[i] == entities[i] && earlier[i] == requests[i]);
            }
        }
        assert forall|entity: Entity| #[trigger]
            after.entities.dom().contains(entity) <==> before.entities.dom().contains(entity)
                || entities.contains(entity) by {
            if fewer.contains(entity) {
                let i = choose|i: int| 0 <= i < fewer.len() && fewer[i] == entity;
                assert(entities[i] == entity);
            }
            if entities.contains(entity) {
                let i = choose|i: int| 0 <= i < entities.len() && entities[i] == entity;
                if i < last {
                    assert(fewer[i] == entity);
                }
            }
        }
        assert forall|i: int| 0 <= i < requests.len() implies after.entities[#[trigger] entities[i]]
            == Components::of_request(requests[i]) by {
            if i < last {
                assert(fewer[i] == entities[i] && earlier[i] == requests[i]);
                assert(entities[i] != entities[last]);
            }
        }
        assert forall|entity: Entity| before.entities.dom().contains(entity) implies #[trigger]
            after.entities[entity] == before.entities[entity] by {
            assert(entity != entities[last]);
        }
    }
}

/// Draining spawns one entity for each request. Each request has its own
/// event, behind those that were published before and in the order of the
/// requests. The entity which that event names is new, differs from those
/// of the other requests, and holds the five components of the request, its
/// position without history. Apart from these entities the store holds what
/// it held.
pub proof fn lemma_drain_spawns_one_entity_per_request(
    before: StoreView,
    requests: Seq<SpawnRequest>,
    after: StoreView,
)
    requires
        before.drained(requests, after),
    ensures
        after.events.len() == before.events.len() + requests.len(),
        after.events.take(before.events.len() as int) == before.events,
        forall|i: int|
            0 <= i < requests.len() ==> {
                let event = #[trigger] after.events[before.events.len() + i];
                &&& event.ty == requests[i].ty
                &&& !before.entities.dom().contains(event.entity)
                &&& after.entities.dom().contains(event.entity)
                &&& after.entities[event.entity] == Components::of_request(requests[i])
            },
        forall|i: int, j: int|
            0 <= i < j < requests.len() ==> (#[trigger] after.events[before.events.len() + i]).entity
                != (#[trigger] after.events[before.events.len() + j]).entity,
        forall|entity: Entity|
            after.entities.dom().contains(entity) && !before.entities.dom().contains(entity)
                ==> exists|i: int|
                0 <= i < requests.len() && (#[trigger] after.events[before.events.len() + i]).entity
                    == entity,
        forall|entity: Entity|
            before.entities.dom().contains(entity) ==> after.entities.dom().contains(entity)
                && #[trigger] after.entities[entity] == before.entities[entity],
{
    let entities = choose|entities: Seq<Entity>|
        {
            &&& entities.len() == requests.len()
            &&& before.admits(entities)
            &&& after == #[trigger] before.spawn_all(entities, requests)
        };
    lemma_spawn_all(before, entities, requests);
    let published = before.events.len() as int;
    assert forall|i: int| 0 <= i < requests.len() implies {
        let event = #[trigger] after.events[published + i];
        &&& event.ty == requests[i].ty
        &&& !before.entities.dom().contains(event.entity)
        &&& after.entities.dom().contains(event.entity)
        &&& after.entities[event.entity] == Components::of_request(requests[i])
    } by {
        assert(after.events[published + i].entity == entities[i]);
        assert(entities.contains(entities[i]));
    }
    assert forall|entity: Entity|
        after.entities.dom().contains(entity) && !before.entities.dom().contains(
            entity,
        ) implies exists|i: int|
        0 <= i < requests.len() && (#[trigger] after.events[published + i]).entity == entity by {
        assert(entities.contains(entity));
        let i = choose|i: int| 0 <= i < entities.len() && entities[i] == entity;
        assert(after.events[published + i].entity == entity);
    }
}

/// Draining an empty queue does nothing: no entity is created and no event
/// is published.
pub proof fn lemma_drain_of_nothing(before: StoreView, after: StoreView)
    requires
        before.drained(Seq::<SpawnRequest>::empty(), after),
    ensures
        after == before,
{
}

/// Spawning for two runs of requests, one after the other, is spawning for
/// all of them at once.
proof fn lemma_spawn_all_in_two_steps(
    before: StoreView,
    first_entities: Seq<Entity>,
    first: Seq<SpawnRequest>,
    second_entities: Seq<Entity>,
    second: Seq<SpawnRequest>,
)
    requires
        first_entities.len() == first.len(),
        second_entities.len() == second.len(),
    ensures
        before.spawn_all(first_entities + second_entities, first + second) == before.spawn_all(
            first_entities,
            first,
        ).spawn_all(second_entities, second),
    decreases second.len(),
{
    if second.len() == 0 {
        assert(first_entities + second_entities =~= first_entities);
        assert(first + second =~= first);
    } else {
        lemma_spawn_all_in_two_steps(
            before,
            first_entities,
            first,
            second_entities.drop_last(),
            second.drop_last(),
        );
        assert((first_entities + second_entities).drop_last() =~= first_entities
            + second_entities.drop_last());
        assert((first + second).drop_last() =~= first + second.drop_last());
    }
}

/// Two drains, one tick after the other, are one drain of all the requests:
/// what the first tick spawned and published stays in front of what the
/// second did, so the order of the requests holds across ticks.
pub proof fn lemma_drains_compose(
    before: StoreView,
    first: Seq<SpawnRequest>,
    between: StoreView,
    second: Seq<SpawnRequest>,
    after: StoreView,
)
    requires
        before.drained(first, between),
        between.drained(second, after),
    ensures
        before.drained(first + second, after),
{
    let first_entities = choose|entities: Seq<Entity>|
        {
            &&& entities.len() == first.len()
            &&& before.admits(entities)
            &&& between == #[trigger] before.spawn_all(entities, first)
        };
    let second_entities = choose|entities: Seq<Entity>|
        {
            &&& entities.len() == second.len()
            &&& between.admits(entities)
            &&& after == #[trigger] between.spawn_all(entities, second)
        };
    let entities = first_entities + second_entities;
    lemma_spawn_all(before, first_entities, first);
    lemma_spawn_all_in_two_steps(before, first_entities, first, second_entities, second);
    assert(before.admits(entities)) by {
        assert forall|i: int| 0 <= i < entities.len() implies !before.entities.dom().contains(
            #[trigger] entities[i],
        ) by {
            if i >= first_entities.len() {
                assert(entities[i] == second_entities[i - first_entities.len()]);
            } else {
                assert(entities[i] == first_entities[i]);
            }
        }
        assert forall|i: int, j: int|
            0 <= i < entities.len() && 0 <= j < entities.len() && i != j implies entities[i]
            != entities[j] by {
            let n = first_entities.len() as int;
            if i < n {
                assert(entities[i] == first_entities[i]);
                assert(first_entities.contains(first_entities[i]));
            } else {
                assert(entities[i] == second_entities[i - n]);
            }
            if j < n {
                assert(entities[j] == first_entities[j]);
                assert(first_entities.contains(first_entities[j]));
            } else {
                assert(entities[j] == second_entities[j - n]);
            }
        }
    }
    assert(after == before.spawn_all(entities, first + second));
}

} // verus!
