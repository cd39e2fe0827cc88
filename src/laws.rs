use crate::contract::{flatten, Expected};
use crate::validate::{all_found, carries, is_first_missing, presence};
use bevy::ecs::entity::Entity;
use bevy::ecs::world::World;
use vstd::prelude::*;

verus! {

/// Every entry of an annotation stands in the merged list.
proof fn lemma_flatten_contains(annotations: Seq<Vec<Expected>>, a: int, k: int)
    requires
        0 <= a < annotations.len(),
        0 <= k < annotations[a]@.len(),
    ensures
        exists|i: int| 0 <= i < flatten(annotations).len() && flatten(annotations)[i]
            == annotations[a]@[k],
    decreases annotations.len(),
{
    let f = flatten(annotations);
    if a == 0 {
        assert(f[k] == annotations[a]@[k]);
    } else {
        let rest = annotations.drop_first();
        lemma_flatten_contains(rest, a - 1, k);
        let i = choose|i: int| 0 <= i < flatten(rest).len() && flatten(rest)[i] == rest[a - 1]@[k];
        assert(f[annotations[0]@.len() + i] == annotations[a]@[k]);
    }
}

/// Every entry of the merged list comes from one of the annotations.
proof fn lemma_flatten_from(annotations: Seq<Vec<Expected>>, i: int)
    requires
        0 <= i < flatten(annotations).len(),
    ensures
        exists|a: int, k: int|
            0 <= a < annotations.len() && 0 <= k < annotations[a]@.len() && flatten(
                annotations,
            )[i] == annotations[a]@[k],
    decreases annotations.len(),
{
    let f = flatten(annotations);
    let first = annotations[0]@;
    if i < first.len() {
        assert(f[i] == annotations[0]@[i]);
    } else {
        let rest = annotations.drop_first();
        lemma_flatten_from(rest, i - first.len());
        let (a, k) = choose|a: int, k: int|
            0 <= a < rest.len() && 0 <= k < rest[a]@.len() && flatten(rest)[i - first.len()]
                == rest[a]@[k];
        assert(f[i] == annotations[a + 1]@[k]);
    }
}

/// Where some expected type was not found, a first such one exists.
proof fn lemma_first_missing_exists(found: Seq<bool>, k: int)
    requires
        0 <= k < found.len(),
        !found[k],
    ensures
        exists|i: int| 0 <= i <= k && is_first_missing(found, i),
    decreases k,
{
    if forall|j: int| 0 <= j < k ==> found[j] {
        assert(is_first_missing(found, k));
    } else {
        let j = choose|j: int| 0 <= j < k && !found[j];
        lemma_first_missing_exists(found, j);
    }
}

/// An entity that carries every expected type passes the check, whatever
/// order the types were inserted in.
pub proof fn lemma_complete_entity_passes(expected: Seq<Expected>, w: World, entity: Entity)
    requires
        forall|i: int| 0 <= i < expected.len() ==> carries(w, entity, #[trigger] expected[i].id),
    ensures
        all_found(presence(expected, w, entity)),
{
}

/// An entity that lacks any expected type fails the check, and the type
/// that the failure names is one that it lacks.
pub proof fn lemma_incomplete_entity_fails(
    expected: Seq<Expected>,
    w: World,
    entity: Entity,
    k: int,
)
    requires
        0 <= k < expected.len(),
        !carries(w, entity, expected[k].id),
    ensures
        !all_found(presence(expected, w, entity)),
        exists|i: int|
            is_first_missing(presence(expected, w, entity), i) && !carries(
                w,
                entity,
                #[trigger] expected[i].id,
            ),
{
    let found = presence(expected, w, entity);
    assert(!found[k]);
    lemma_first_missing_exists(found, k);
}

/// A type declared by several annotations expects their union: an entity
/// that carries every type any of them names passes.
pub proof fn lemma_merged_union_passes(annotations: Seq<Vec<Expected>>, w: World, entity: Entity)
    requires
        forall|a: int, k: int|
            0 <= a < annotations.len() && 0 <= k < annotations[a]@.len() ==> carries(
                w,
                entity,
                #[trigger] annotations[a]@[k].id,
            ),
    ensures
        all_found(presence(flatten(annotations), w, entity)),
{
    let f = flatten(annotations);
    assert forall|i: int| 0 <= i < f.len() implies carries(w, entity, #[trigger] f[i].id) by {
        lemma_flatten_from(annotations, i);
    }
}

/// A type declared by several annotations fails on an entity that lacks any
/// one type that any of them names.
pub proof fn lemma_merged_member_required(
    annotations: Seq<Vec<Expected>>,
    w: World,
    entity: Entity,
    a: int,
    k: int,
)
    requires
        0 <= a < annotations.len(),
        0 <= k < annotations[a]@.len(),
        !carries(w, entity, annotations[a]@[k].id),
    ensures
        !all_found(presence(flatten(annotations), w, entity)),
{
    lemma_flatten_contains(annotations, a, k);
    let i = choose|i: int|
        0 <= i < flatten(annotations).len() && flatten(annotations)[i] == annotations[a]@[k];
    lemma_incomplete_entity_fails(flatten(annotations), w, entity, i);
}

} // verus!
