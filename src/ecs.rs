use bevy::ecs::component::ComponentId;
use bevy::ecs::entity::Entity;
use bevy::ecs::world::World;
use std::any::TypeId;
use vstd::prelude::*;

verus! {

/// `std::any::TypeId`: the identity of a type, carried through opaquely.
#[verifier::external_type_specification]
#[verifier::external_body]
pub struct ExTypeId(TypeId);

/// `bevy::ecs::world::World`: the world that entities live in.
#[verifier::external_type_specification]
#[verifier::external_body]
pub struct ExWorld(World);

/// `bevy::ecs::entity::Entity`: the identifier of one entity.
#[verifier::external_type_specification]
#[verifier::external_body]
pub struct ExEntity(Entity);

/// `bevy::ecs::component::ComponentId`: a component slot of one world.
#[verifier::external_type_specification]
#[verifier::external_body]
pub struct ExComponentId(ComponentId);

/// What a world's component registry holds: the slot registered for each
/// type (`Components`' index from `TypeId` to `ComponentId`).
pub uninterp spec fn registered(w: World) -> Map<TypeId, ComponentId>;

/// Which component slots the world's live entities carry: the pairs of a
/// live entity and a slot that its archetype holds.
pub uninterp spec fn carried(w: World) -> Set<(Entity, ComponentId)>;

/// Relies on `World::components` and `Components::get_id`: a lookup in the
/// registry's index, the slot registered for the type if there is one.
#[verifier::external_body]
pub(crate) fn component_id_of(world: &World, id: TypeId) -> (r: Option<ComponentId>)
    ensures
        registered(*world).contains_key(id) ==> r == Some(registered(*world)[id]),
        !registered(*world).contains_key(id) ==> r is None,
{
    world.components().get_id(id)
}

/// Relies on `World::get_entity` and `EntityRef::contains_id`: whether the
/// entity is alive in the world and its archetype holds the slot. An entity
/// that the world does not know carries nothing.
#[verifier::external_body]
pub(crate) fn entity_has(world: &World, entity: Entity, component: ComponentId) -> (r: bool)
    ensures
        r == carried(*world).contains((entity, component)),
{
    match world.get_entity(entity) {
        Ok(found) => found.contains_id(component),
        Err(_) => false,
    }
}

/// Relies on `Entity`'s `Debug` format, used in diagnostics only.
#[verifier::external_body]
pub(crate) fn entity_label(entity: Entity) -> String {
    format!("{:?}", entity)
}

} // verus!
