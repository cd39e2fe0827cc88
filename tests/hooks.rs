use std::any::TypeId;

use bevy::ecs::component::{Component, ComponentId, StorageType};
use bevy::ecs::entity::Entity;
use bevy::ecs::world::{DeferredWorld, World};
use bevy_expected_components::{validate, Contract, Expected};

struct Position;

impl Component for Position {
    const STORAGE_TYPE: StorageType = StorageType::Table;
}

struct Velocity;

impl Component for Velocity {
    const STORAGE_TYPE: StorageType = StorageType::Table;
}

struct PhysicsBody;

impl Component for PhysicsBody {
    const STORAGE_TYPE: StorageType = StorageType::Table;
}

struct SingleExpectation;

impl Component for SingleExpectation {
    const STORAGE_TYPE: StorageType = StorageType::Table;
}

struct MultiAttribute;

impl Component for MultiAttribute {
    const STORAGE_TYPE: StorageType = StorageType::Table;
}

fn expected<T: 'static>(name: &str) -> Expected {
    Expected {
        id: TypeId::of::<T>(),
        name: name.to_string(),
    }
}

fn position() -> Expected {
    expected::<Position>("hooks::Position")
}

fn velocity() -> Expected {
    expected::<Velocity>("hooks::Velocity")
}

fn contract_of(declaring: &str, annotations: Vec<Vec<Expected>>) -> Contract {
    Contract::declare(declaring.to_string(), annotations).unwrap()
}

fn check(world: &DeferredWorld, entity: Entity, contract: Contract) {
    if let Err(violation) = validate(world, entity, &contract) {
        panic!("{}", violation.message());
    }
}

fn physics_body_hook(world: DeferredWorld, entity: Entity, _id: ComponentId) {
    let contract = contract_of("hooks::PhysicsBody", vec![vec![position(), velocity()]]);
    check(&world, entity, contract);
}

fn single_expectation_hook(world: DeferredWorld, entity: Entity, _id: ComponentId) {
    let contract = contract_of("hooks::SingleExpectation", vec![vec![position()]]);
    check(&world, entity, contract);
}

fn multi_attribute_hook(world: DeferredWorld, entity: Entity, _id: ComponentId) {
    let contract = contract_of("hooks::MultiAttribute", vec![vec![position()], vec![velocity()]]);
    check(&world, entity, contract);
}

/// A world with the validation hooks installed, as the plugin installs them.
fn validated_world() -> World {
    let mut world = World::new();
    world.register_component_hooks::<PhysicsBody>().on_add(physics_body_hook);
    world
        .register_component_hooks::<SingleExpectation>()
        .on_add(single_expectation_hook);
    world
        .register_component_hooks::<MultiAttribute>()
        .on_add(multi_attribute_hook);
    world
}

#[test]
fn lib_succeeds_when_all_expected_components_present() {
    let mut world = validated_world();
    world.spawn((PhysicsBody, Position, Velocity));
}

#[test]
fn lib_succeeds_with_single_expectation() {
    let mut world = validated_world();
    world.spawn((SingleExpectation, Position));
}

#[test]
#[should_panic(expected = "expects")]
fn lib_panics_when_expected_component_missing() {
    let mut world = validated_world();
    world.spawn((PhysicsBody, Velocity));
}

#[test]
#[should_panic(expected = "Position")]
fn lib_panic_message_includes_missing_component_name() {
    let mut world = validated_world();
    world.spawn((PhysicsBody, Velocity));
}

#[test]
fn lib_no_validation_without_plugin() {
    let mut world = World::new();
    world.spawn((PhysicsBody,));
}

#[test]
fn lib_order_independent_insertion() {
    let mut world = validated_world();
    world.spawn((Position, Velocity, PhysicsBody));
}

#[test]
fn integration_succeeds_when_all_expected_components_present() {
    let mut world = validated_world();
    world.spawn((PhysicsBody, Position, Velocity));
}

#[test]
fn integration_succeeds_with_single_expectation() {
    let mut world = validated_world();
    world.spawn((SingleExpectation, Position));
}

#[test]
#[should_panic(expected = "expects")]
fn integration_panics_when_expected_component_missing() {
    let mut world = validated_world();
    world.spawn((PhysicsBody, Velocity));
}

#[test]
#[should_panic(expected = "Position")]
fn integration_panic_message_includes_missing_component_name() {
    let mut world = validated_world();
    world.spawn((PhysicsBody, Velocity));
}

#[test]
fn integration_no_validation_without_plugin() {
    let mut world = World::new();
    world.spawn((PhysicsBody,));
}

#[test]
fn integration_order_independent_insertion() {
    let mut world = validated_world();
    world.spawn((Position, Velocity, PhysicsBody));
}

#[test]
fn multiple_expects_attributes() {
    let mut world = validated_world();
    world.spawn((MultiAttribute, Position, Velocity));
}

#[test]
fn multiple_attributes_missing_one_fails() {
    let mut world = World::new();
    let entity = world.spawn((MultiAttribute, Position)).id();
    let contract = contract_of("hooks::MultiAttribute", vec![vec![position()], vec![velocity()]]);
    let violation = validate(&world, entity, &contract).unwrap_err();
    assert_eq!(violation.index, 1);
    assert_eq!(violation.missing, "hooks::Velocity");
    assert_eq!(violation.declaring, "hooks::MultiAttribute");
    assert_eq!(violation.entity, entity);
}

#[test]
fn declaring_type_alone_fails() {
    let mut world = World::new();
    let entity = world.spawn((PhysicsBody,)).id();
    let contract = contract_of("hooks::PhysicsBody", vec![vec![position(), velocity()]]);
    let violation = validate(&world, entity, &contract).unwrap_err();
    assert_eq!(violation.index, 0);
    assert_eq!(violation.missing, "hooks::Position");
    assert_eq!(
        violation.message(),
        format!("hooks::PhysicsBody expects hooks::Position but it was not found on entity {:?}", entity)
    );
}

#[test]
fn unregistered_expected_type_is_missing() {
    let mut world = World::new();
    let entity = world.spawn((PhysicsBody, Velocity)).id();
    let contract = contract_of("hooks::PhysicsBody", vec![vec![velocity(), position()]]);
    let violation = validate(&world, entity, &contract).unwrap_err();
    assert_eq!(violation.index, 1);
    assert_eq!(violation.missing, "hooks::Position");
}

#[test]
fn validation_leaves_the_entity_unchanged() {
    let mut world = World::new();
    let entity = world.spawn((PhysicsBody, Position, Velocity)).id();
    let before = world.entity(entity).archetype().len();
    let contract = contract_of("hooks::PhysicsBody", vec![vec![position(), velocity()]]);
    assert!(validate(&world, entity, &contract).is_ok());
    assert_eq!(world.entity(entity).archetype().len(), before);
    assert_eq!(world.entities().len(), 1);
}

#[test]
fn declaring_type_alone_without_hooks_passes() {
    let mut world = World::new();
    let entity = world.spawn((PhysicsBody,)).id();
    assert!(world.entity(entity).contains::<PhysicsBody>());
}
