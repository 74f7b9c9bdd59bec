//! The store: what the drain phase writes to.
//!
//! A store holds the five component tables with their entity allocator, and
//! the channel on which spawn events are published.

use vstd::prelude::*;
use shrev::EventChannel;
use specs::{Entity, World};
use crate::channel::{channel_events, channel_new, channel_write};
use crate::entity::{
    EntitySpawnEvent,
    EntityType,
    ItemMarker,
    Metadata,
    PositionComponent,
    VelocityComponent,
};
use crate::request::SpawnRequest;
use crate::world::{
    entity_limit,
    world_components,
    world_create,
    world_insert_item_marker,
    world_insert_kind,
    world_insert_metadata,
    world_insert_position,
    world_insert_velocity,
    world_new,
    world_parts,
    world_register_item_markers,
    world_register_kinds,
    world_register_metadata,
    world_register_positions,
    world_register_velocities,
    world_room,
    Components,
    Part,
};

verus! {

impl Components {
    /// The components that the entity spawned for `request` is given:
    /// one in each table. Its position has no history: where it is and
    /// where it was are both the place that the request names.
    pub open spec fn of_request(request: SpawnRequest) -> Components {
        Components {
            position: Some(PositionComponent::spec_at_rest(request.position)),
            velocity: Some(VelocityComponent(request.velocity)),
            metadata: Some(request.meta),
            kind: Some(request.ty),
            item_marker: Some(ItemMarker),
        }
    }
}

/// What a store holds, as mathematics.
pub struct StoreView {
    /// The entities that live, each with its components.
    pub entities: Map<Entity, Components>,
    /// The spawn events published so far, oldest first.
    pub events: Seq<EntitySpawnEvent>,
}

impl StoreView {
    /// The store after `entity` has been spawned for `request`: the entity
    /// has the components of the request, and its event is the newest.
    pub open spec fn spawn(self, entity: Entity, request: SpawnRequest) -> StoreView {
        StoreView {
            entities: self.entities.insert(entity, Components::of_request(request)),
            events: self.events.push(EntitySpawnEvent { entity, ty: request.ty }),
        }
    }

    /// The store after one entity has been spawned for each request, in
    /// the order of the requests: `entities[i]` for `requests[i]`.
    pub open spec fn spawn_all(self, entities: Seq<Entity>, requests: Seq<SpawnRequest>) -> StoreView
        decreases requests.len(),
    {
        if requests.len() == 0 || entities.len() != requests.len() {
            self
        } else {
            self.spawn_all(entities.drop_last(), requests.drop_last()).spawn(
                entities.last(),
                requests.last(),
            )
        }
    }

    /// The entities are new to the store, and no two of them are the same.
    pub open spec fn admits(self, entities: Seq<Entity>) -> bool {
        &&& entities.no_duplicates()
        &&& forall|i: int|
            0 <= i < entities.len() ==> !self.entities.dom().contains(#[trigger] entities[i])
    }

    /// `after` is this store once the requests have been drained into it:
    /// one new entity was spawned for each request, in their order.
    pub open spec fn drained(self, requests: Seq<SpawnRequest>, after: StoreView) -> bool {
        exists|entities: Seq<Entity>|
            {
                &&& entities.len() == requests.len()
                &&& self.admits(entities)
                &&& after == #[trigger] self.spawn_all(entities, requests)
            }
    }
}

/// The number of entities that a store can hold.
pub fn max_entities() -> (limit: usize)
    ensures
        limit == entity_limit(),
{
    if usize::BITS == 64 {
        0x100_0000
    } else {
        0x10_0000
    }
}

/// The component tables, the entity allocator and the event channel.
pub struct Store {
    world: World,
    events: EventChannel<EntitySpawnEvent>,
    room: usize,
}

impl Store {
    /// What the store holds.
    pub closed spec fn view(&self) -> StoreView {
        StoreView { entities: world_components(self.world), events: channel_events(self.events) }
    }

    /// The store is fit for use: its world has the allocator and the five
    /// tables, and the allocator can create as many entities as the store
    /// counts on.
    pub closed spec fn wf(&self) -> bool {
        &&& world_parts(self.world).contains(Part::Entities)
        &&& world_parts(self.world).contains(Part::Positions)
        &&& world_parts(self.world).contains(Part::Velocities)
        &&& world_parts(self.world).contains(Part::Metadata)
        &&& world_parts(self.world).contains(Part::Kinds)
        &&& world_parts(self.world).contains(Part::ItemMarkers)
        &&& self.room <= world_room(self.world)
    }

    /// The number of entities that can still be spawned.
    pub closed spec fn spec_room(&self) -> usize {
        self.room
    }

    /// An empty store: no entity, no event, and room for `max_entities()`.
    pub fn new() -> (store: Self)
        ensures
            store.wf(),
            store@.entities == Map::<Entity, Components>::empty(),
            store@.events == Seq::<EntitySpawnEvent>::empty(),
            store.spec_room() == entity_limit(),
    {
        let mut world = world_new();
        world_register_positions(&mut world);
        world_register_velocities(&mut world);
        world_register_metadata(&mut world);
        world_register_kinds(&mut world);
        world_register_item_markers(&mut world);
        Store { world, events: channel_new(), room: max_entities() }
    }

    /// The number of entities that can still be spawned.
    #[verifier::when_used_as_spec(spec_room)]
    pub fn room(&self) -> (room: usize)
        ensures
            room == self.spec_room(),
    {
        self.room
    }

    /// Spawns the entity that `request` asks for: allocates a new entity,
    /// gives it its position, velocity, metadata and kind and the marker of
    /// its kind, and publishes the event. Returns the entity.
    pub fn spawn(&mut self, request: SpawnRequest) -> (entity: Entity)
        requires
            old(self).wf(),
            old(self).spec_room() > 0,
            request.spawnable(),
        ensures
            final(self).wf(),
            !old(self)@.entities.dom().contains(entity),
            final(self)@ == old(self)@.spawn(entity, request),
            final(self).spec_room() == old(self).spec_room() - 1,
    {
        // The marker of the kind is settled first: a request of a kind that
        // has none must not leave half an entity behind.
        let marker = match request.ty {
            EntityType::Item => ItemMarker,
            EntityType::Player => vstd::pervasive::unreached(),
        };

        let entity = world_create(&mut self.world);
        self.room = self.room - 1;

        let _ = world_insert_position(
            &mut self.world,
            entity,
            PositionComponent::at_rest(request.position),
        ).unwrap();
        let _ = world_insert_velocity(
            &mut self.world,
            entity,
            VelocityComponent(request.velocity),
        ).unwrap();
        let _ = world_insert_metadata(&mut self.world, entity, request.meta).unwrap();
        let _ = world_insert_kind(&mut self.world, entity, request.ty).unwrap();
        let _ = world_insert_item_marker(&mut self.world, entity, marker).unwrap();

        // Trigger event
        let event = EntitySpawnEvent { entity, ty: request.ty };
        channel_write(&mut self.events, event);

        assert(self@.entities =~= old(self)@.spawn(entity, request).entities);
        entity
    }

    /// The world that holds the tables, to read them.
    pub fn world(&self) -> (world: &World)
        ensures
            world_components(*world) == self@.entities,
    {
        &self.world
    }

    /// The channel that holds the spawn events, to read them.
    pub fn events(&self) -> (channel: &EventChannel<EntitySpawnEvent>)
        ensures
            channel_events(*channel) == self@.events,
    {
        &self.events
    }

    /// The channel that holds the spawn events, for what needs it to
    /// itself: a reader is registered there. The tables are out of reach
    /// meanwhile, and the store holds afterwards what the channel holds
    /// when it is given back.
    pub fn events_mut(&mut self) -> (channel: &mut EventChannel<EntitySpawnEvent>)
        ensures
            channel_events(*channel) == old(self)@.events,
            final(self)@.events == channel_events(*final(channel)),
            final(self)@.entities == old(self)@.entities,
            final(self).wf() == old(self).wf(),
            final(self).spec_room() == old(self).spec_room(),
    {
        &mut self.events
    }
}

} // verus!
