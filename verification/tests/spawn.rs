use spawner::{
    EntitySpawnEvent, EntityType, Extra, Item, ItemMarker, ItemMetadata, ItemStack, Metadata,
    Position, PositionComponent, SpawnRequest, Spawner, SpawnerSystem, Store, Vec3,
    VelocityComponent,
};
use specs::{Join, WorldExt};

fn position(x: f64, y: f64, z: f64) -> Position {
    Position::new(x.to_bits(), y.to_bits(), z.to_bits())
}

fn vec3(x: f32, y: f32, z: f32) -> Vec3 {
    Vec3::new(x.to_bits(), y.to_bits(), z.to_bits())
}

fn living(store: &Store) -> usize {
    let entities = store.world().entities();
    (&*entities).join().count()
}

fn published(store: &Store, reader: &mut shrev::ReaderId<EntitySpawnEvent>) -> Vec<EntitySpawnEvent> {
    store.events().read(reader).cloned().collect()
}

#[test]
fn test_spawn_item() {
    let mut spawner = Spawner::default();

    let position = position(0.0, 10.0, 1.04);
    let velocity = vec3(104.0, 4.0, 10.0);
    let item = ItemStack::new(Item::EnderPearl, 4);

    spawner.spawn_item(position, velocity, item);

    let request = spawner.drain_one().unwrap();
    assert_eq!(request.ty, EntityType::Item);
    assert_eq!(request.position, position);
    assert_eq!(request.velocity, velocity);
}

#[test]
fn test_spawner_system() {
    let mut store = Store::new();
    let mut spawner = Spawner::default();
    let mut system = SpawnerSystem;

    let position = position(0.0, 10.0, 1.04);
    let velocity = vec3(104.0, 4.0, 10.0);
    let item = ItemStack::new(Item::EnderPearl, 4);

    let mut reader = store.events_mut().register_reader();

    spawner.spawn_item(position, velocity, item);

    system.run(&mut spawner, &mut store);

    let events = published(&store, &mut reader);
    assert_eq!(events.len(), 1);

    let first = events.first().unwrap();
    assert_eq!(first.ty, EntityType::Item);
}

#[test]
fn item_request_carries_every_field() {
    let mut spawner = Spawner::new();
    let position = position(0.0, 10.0, 1.04);
    let velocity = vec3(104.0, 4.0, 10.0);
    let item = ItemStack::new(Item::EnderPearl, 4);

    spawner.spawn_item(position, velocity, item);

    let request = spawner.drain_one().unwrap();
    assert_eq!(request.ty, EntityType::Item);
    assert_eq!(request.position.x, 0.0f64.to_bits());
    assert_eq!(request.position.y, 10.0f64.to_bits());
    assert_eq!(request.position.z, 1.04f64.to_bits());
    assert_eq!(request.velocity.x, 104.0f32.to_bits());
    assert_eq!(request.velocity.y, 4.0f32.to_bits());
    assert_eq!(request.velocity.z, 10.0f32.to_bits());
    let Metadata::Item(metadata) = request.meta;
    assert_eq!(metadata.item, Some(ItemStack { ty: Item::EnderPearl, amount: 4 }));
    assert_eq!(request.extra, Extra::Item(ItemStack { ty: Item::EnderPearl, amount: 4 }));
    assert!(request.is_spawnable());
    assert_eq!(request, SpawnRequest::item(position, velocity, item));
}

#[test]
fn new_spawner_is_empty() {
    let mut spawner = Spawner::new();
    assert_eq!(spawner.len(), 0);
    assert_eq!(spawner.drain_one(), None);
    assert_eq!(spawner.len(), 0);
}

#[test]
fn requests_leave_in_the_order_they_came() {
    let mut spawner = Spawner::new();
    let first = SpawnRequest::item(position(1.0, 2.0, 3.0), vec3(0.0, 0.0, 0.0), ItemStack::new(Item::Stone, 1));
    let second = SpawnRequest::item(position(4.0, 5.0, 6.0), vec3(1.0, 0.0, 0.0), ItemStack::new(Item::Dirt, 2));
    let third = SpawnRequest::item(position(7.0, 8.0, 9.0), vec3(0.0, 1.0, 0.0), ItemStack::new(Item::Stick, 3));

    spawner.append(first);
    assert_eq!(spawner.len(), 1);
    spawner.append(second);
    spawner.append(third);
    assert_eq!(spawner.len(), 3);

    assert_eq!(spawner.drain_one(), Some(first));
    assert_eq!(spawner.len(), 2);
    assert_eq!(spawner.drain_one(), Some(second));
    assert_eq!(spawner.drain_one(), Some(third));
    assert_eq!(spawner.drain_one(), None);
    assert_eq!(spawner.len(), 0);
}

#[test]
fn queued_items_match_their_inputs() {
    let mut spawner = Spawner::new();
    let inputs: Vec<(Position, Vec3, ItemStack)> = (0..50u8)
        .map(|i| {
            (
                position(f64::from(i), 64.0, -f64::from(i)),
                vec3(f32::from(i), 0.5, 0.0),
                ItemStack::new(Item::Arrow, i),
            )
        })
        .collect();

    for (position, velocity, item) in &inputs {
        spawner.spawn_item(*position, *velocity, *item);
    }

    assert_eq!(spawner.len(), 50);
    for (position, velocity, item) in &inputs {
        let request = spawner.drain_one().unwrap();
        assert_eq!(request, SpawnRequest::item(*position, *velocity, *item));
    }
    assert_eq!(spawner.drain_one(), None);
}

#[test]
fn shared_queue_takes_requests_from_many_holders() {
    let mut spawner = Spawner::new();
    {
        let first_holder = spawner.queue();
        let second_holder = spawner.queue();
        first_holder.push(SpawnRequest::item(position(1.0, 1.0, 1.0), vec3(0.0, 0.0, 0.0), ItemStack::new(Item::Stone, 1)));
        second_holder.push(SpawnRequest::item(position(2.0, 2.0, 2.0), vec3(0.0, 0.0, 0.0), ItemStack::new(Item::Dirt, 2)));
    }
    assert_eq!(spawner.len(), 2);
    assert_eq!(spawner.drain_one().unwrap().extra, Extra::Item(ItemStack::new(Item::Stone, 1)));
    assert_eq!(spawner.drain_one().unwrap().extra, Extra::Item(ItemStack::new(Item::Dirt, 2)));
}

#[test]
fn new_store_is_empty() {
    let mut store = Store::new();
    assert_eq!(store.room(), spawner::max_entities());
    let mut reader = store.events_mut().register_reader();
    assert!(published(&store, &mut reader).is_empty());
    assert_eq!(living(&store), 0);
}

#[test]
fn max_entities_follows_the_word_width() {
    if usize::BITS == 64 {
        assert_eq!(spawner::max_entities(), 16_777_216);
    } else {
        assert_eq!(spawner::max_entities(), 1_048_576);
    }
}

#[test]
fn spawn_gives_the_entity_its_components() {
    let mut store = Store::new();
    let mut reader = store.events_mut().register_reader();
    let place = position(0.0, 10.0, 1.04);
    let speed = vec3(104.0, 4.0, 10.0);
    let stack = ItemStack::new(Item::EnderPearl, 4);
    let request = SpawnRequest::item(place, speed, stack);

    let entity = store.spawn(request);

    assert_eq!(store.room(), spawner::max_entities() - 1);
    assert!(store.world().entities().is_alive(entity));
    assert_eq!(
        store.world().read_storage::<PositionComponent>().get(entity),
        Some(&PositionComponent { current: place, previous: place })
    );
    assert_eq!(store.world().read_storage::<VelocityComponent>().get(entity), Some(&VelocityComponent(speed)));
    assert_eq!(
        store.world().read_storage::<Metadata>().get(entity),
        Some(&Metadata::Item(ItemMetadata { item: Some(stack) }))
    );
    assert_eq!(store.world().read_storage::<EntityType>().get(entity), Some(&EntityType::Item));
    assert_eq!(store.world().read_storage::<ItemMarker>().get(entity), Some(&ItemMarker));

    let events = published(&store, &mut reader);
    assert_eq!(events, vec![EntitySpawnEvent { entity, ty: EntityType::Item }]);
}

#[test]
fn spawned_entity_has_no_history() {
    let mut store = Store::new();
    let place = position(-3.5, 70.0, 1e-9);
    let entity = store.spawn(SpawnRequest::item(place, vec3(0.0, -0.08, 0.0), ItemStack::new(Item::Diamond, 1)));

    let positions = store.world().read_storage::<PositionComponent>();
    let component = positions.get(entity).unwrap();
    assert_eq!(component.current.x, component.previous.x);
    assert_eq!(component.current.y, component.previous.y);
    assert_eq!(component.current.z, component.previous.z);
    assert_eq!(component.current, place);
    assert_eq!(PositionComponent::at_rest(place), PositionComponent { current: place, previous: place });
}

#[test]
fn drain_spawns_one_entity_per_request_in_order() {
    let mut store = Store::new();
    let mut spawner = Spawner::new();
    let mut system = SpawnerSystem;
    let mut reader = store.events_mut().register_reader();

    let inputs = [
        (position(1.0, 2.0, 3.0), vec3(0.1, 0.2, 0.3), ItemStack::new(Item::Stone, 1)),
        (position(4.0, 5.0, 6.0), vec3(0.4, 0.5, 0.6), ItemStack::new(Item::Dirt, 2)),
        (position(7.0, 8.0, 9.0), vec3(0.7, 0.8, 0.9), ItemStack::new(Item::Stick, 3)),
        (position(1.0, 2.0, 3.0), vec3(0.1, 0.2, 0.3), ItemStack::new(Item::Stone, 1)),
    ];
    for (place, speed, stack) in &inputs {
        spawner.spawn_item(*place, *speed, *stack);
    }

    system.run(&mut spawner, &mut store);

    assert_eq!(spawner.len(), 0);
    assert_eq!(store.room(), spawner::max_entities() - 4);
    assert_eq!(living(&store), 4);

    let events = published(&store, &mut reader);
    assert_eq!(events.len(), 4);
    for (i, (place, speed, stack)) in inputs.iter().enumerate() {
        let entity = events[i].entity;
        assert_eq!(events[i].ty, EntityType::Item);
        for earlier in &events[..i] {
            assert_ne!(earlier.entity, entity);
        }
        assert_eq!(
            store.world().read_storage::<PositionComponent>().get(entity),
            Some(&PositionComponent { current: *place, previous: *place })
        );
        assert_eq!(store.world().read_storage::<VelocityComponent>().get(entity), Some(&VelocityComponent(*speed)));
        assert_eq!(
            store.world().read_storage::<Metadata>().get(entity),
            Some(&Metadata::Item(ItemMetadata { item: Some(*stack) }))
        );
        assert_eq!(store.world().read_storage::<EntityType>().get(entity), Some(&EntityType::Item));
        assert!(store.world().read_storage::<ItemMarker>().contains(entity));
    }
}

#[test]
fn drain_of_an_empty_queue_does_nothing() {
    let mut store = Store::new();
    let mut spawner = Spawner::new();
    let mut system = SpawnerSystem;
    let mut reader = store.events_mut().register_reader();

    system.run(&mut spawner, &mut store);

    assert_eq!(store.room(), spawner::max_entities());
    assert_eq!(living(&store), 0);
    assert!(published(&store, &mut reader).is_empty());
}

#[test]
fn second_drain_keeps_what_the_first_spawned() {
    let mut store = Store::new();
    let mut spawner = Spawner::new();
    let mut system = SpawnerSystem;
    let mut reader = store.events_mut().register_reader();

    spawner.spawn_item(position(1.0, 1.0, 1.0), vec3(0.0, 0.0, 0.0), ItemStack::new(Item::Stone, 1));
    system.run(&mut spawner, &mut store);
    let first = published(&store, &mut reader);
    assert_eq!(first.len(), 1);

    system.run(&mut spawner, &mut store);
    assert!(published(&store, &mut reader).is_empty());

    spawner.spawn_item(position(2.0, 2.0, 2.0), vec3(0.0, 0.0, 0.0), ItemStack::new(Item::Dirt, 2));
    system.run(&mut spawner, &mut store);
    let second = published(&store, &mut reader);
    assert_eq!(second.len(), 1);
    assert_ne!(first[0].entity, second[0].entity);
    assert_eq!(
        store.world().read_storage::<Metadata>().get(first[0].entity),
        Some(&Metadata::Item(ItemMetadata { item: Some(ItemStack::new(Item::Stone, 1)) }))
    );
    assert_eq!(store.room(), spawner::max_entities() - 2);
}

#[test]
fn reader_is_handed_only_what_came_after_it() {
    let mut store = Store::new();
    let early = store.spawn(SpawnRequest::item(position(0.0, 0.0, 0.0), vec3(0.0, 0.0, 0.0), ItemStack::new(Item::Stone, 1)));
    let mut reader = store.events_mut().register_reader();
    let late = store.spawn(SpawnRequest::item(position(0.0, 0.0, 0.0), vec3(0.0, 0.0, 0.0), ItemStack::new(Item::Stone, 1)));
    assert_ne!(early, late);
    assert_eq!(published(&store, &mut reader), vec![EntitySpawnEvent { entity: late, ty: EntityType::Item }]);
}

#[test]
fn request_of_another_kind_is_not_spawnable() {
    let stack = ItemStack::new(Item::EnderPearl, 4);
    let request = SpawnRequest {
        ty: EntityType::Player,
        position: position(0.0, 10.0, 1.04),
        velocity: vec3(104.0, 4.0, 10.0),
        meta: Metadata::Item(ItemMetadata { item: Some(stack) }),
        extra: Extra::Item(stack),
    };
    assert!(!request.is_spawnable());
    assert!(!EntityType::Player.has_marker());
    assert!(EntityType::Item.has_marker());
    assert_eq!(request.meta.kind(), EntityType::Item);
    assert_eq!(request.extra.kind(), EntityType::Item);
}

#[test]
fn item_metadata_shows_what_was_set() {
    let mut metadata = ItemMetadata::default();
    assert_eq!(metadata.item, None);
    metadata.set_item(Some(ItemStack::new(Item::Diamond, 64)));
    assert_eq!(metadata.item, Some(ItemStack { ty: Item::Diamond, amount: 64 }));
    metadata.set_item(None);
    assert_eq!(metadata, ItemMetadata::default());
}

fn shared_between_threads<T: Send + Sync>(_: &T) {}

#[test]
fn spawner_can_be_shared_between_threads() {
    let spawner = Spawner::new();
    shared_between_threads(&spawner);
    shared_between_threads(spawner.queue());
}
