use crate::contract::{Contract, Expected};
use crate::ecs::{carried, component_id_of, entity_has, entity_label, registered};
use bevy::ecs::entity::Entity;
use bevy::ecs::world::World;
use std::any::TypeId;
use vstd::prelude::*;
use vstd::string::*;

verus! {

/// Every expected type was found.
pub open spec fn all_found(found: Seq<bool>) -> bool {
    forall|j: int| 0 <= j < found.len() ==> found[j]
}

/// `i` is the first position at which an expected type was not found.
pub open spec fn is_first_missing(found: Seq<bool>, i: int) -> bool {
    &&& 0 <= i < found.len()
    &&& !found[i]
    &&& forall|j: int| 0 <= j < i ==> found[j]
}

/// The world has registered type `t` and `entity` carries its slot.
pub open spec fn carries(w: World, entity: Entity, t: TypeId) -> bool {
    registered(w).contains_key(t) && carried(w).contains((entity, registered(w)[t]))
}

/// Which of the expected types `entity` carries in `w`, position by position.
pub open spec fn presence(expected: Seq<Expected>, w: World, entity: Entity) -> Seq<bool> {
    expected.map_values(|e: Expected| carries(w, entity, e.id))
}

/// The text that every violation message starts with.
pub open spec fn violation_prefix(declaring: Seq<char>, missing: Seq<char>) -> Seq<char> {
    declaring + " expects "@ + missing + " but it was not found on entity "@
}

/// An expected type that was missing when the declaring type was inserted.
pub struct Violation {
    /// Name of the declaring type.
    pub declaring: String,
    /// Name of the first expected type that was missing.
    pub missing: String,
    /// Its position in the contract.
    pub index: usize,
    /// The entity that received the declaring type.
    pub entity: Entity,
}

impl Violation {
    /// The diagnostic, with `entity_label` standing for the entity: the
    /// declaring type, the missing type, then the label.
    pub fn describe(&self, entity_label: &str) -> (r: String)
        ensures
            r@ == violation_prefix(self.declaring@, self.missing@) + entity_label@,
    {
        proof {
            reveal_strlit(" expects ");
            reveal_strlit(" but it was not found on entity ");
        }
        let mut r = self.declaring.clone();
        r.append(" expects ");
        r.append(self.missing.as_str());
        r.append(" but it was not found on entity ");
        r.append(entity_label);
        r
    }

    /// The diagnostic: the declaring type, the missing type, and the entity
    /// in its `Debug` form.
    pub fn message(&self) -> (r: String)
        ensures
            r@.len() >= violation_prefix(self.declaring@, self.missing@).len(),
            r@.subrange(0, violation_prefix(self.declaring@, self.missing@).len() as int)
                == violation_prefix(self.declaring@, self.missing@),
    {
        let label = entity_label(self.entity);
        let r = self.describe(label.as_str());
        assert(r@.subrange(0, violation_prefix(self.declaring@, self.missing@).len() as int)
            =~= violation_prefix(self.declaring@, self.missing@));
        r
    }
}

/// Decides, from which expected types were found, whether the insertion of
/// the declaring type into `entity` stands: it fails on the first expected
/// type that was not found, and names it.
pub fn check_presence(contract: &Contract, entity: Entity, found: &Vec<bool>) -> (r: Result<
    (),
    Violation,
>)
    requires
        found@.len() <= contract.expected@.len(),
    ensures
        r is Ok <==> all_found(found@),
        r matches Err(v) ==> {
            &&& is_first_missing(found@, v.index as int)
            &&& v.index < contract.expected@.len()
            &&& v.declaring@ == contract.declaring@
            &&& v.missing@ == contract.expected@[v.index as int].name@
            &&& v.entity == entity
        },
{
    let mut i: usize = 0;
    while i < found.len()
        invariant
            i <= found@.len(),
            found@.len() <= contract.expected@.len(),
            forall|j: int| 0 <= j < i ==> found@[j],
        decreases found@.len() - i,
    {
        if !found[i] {
            return Err(
                Violation {
                    declaring: contract.declaring.clone(),
                    missing: contract.expected[i].name.clone(),
                    index: i,
                    entity,
                },
            );
        }
        i = i + 1;
    }
    Ok(())
}

/// Checks `contract` on `entity`, which has just received the declaring
/// type: each expected type, in order, must be registered in the world and
/// carried by the entity. Checking stops at the first one that is missing,
/// which the error names. The world is only read.
pub fn validate(world: &World, entity: Entity, contract: &Contract) -> (r: Result<(), Violation>)
    ensures
        r is Ok <==> all_found(presence(contract.expected@, *world, entity)),
        r matches Err(v) ==> {
            &&& is_first_missing(presence(contract.expected@, *world, entity), v.index as int)
            &&& v.declaring@ == contract.declaring@
            &&& v.missing@ == contract.expected@[v.index as int].name@
            &&& v.entity == entity
        },
{
    let ghost full = presence(contract.expected@, *world, entity);
    let mut found: Vec<bool> = Vec::new();
    let mut all: bool = true;
    let mut i: usize = 0;
    while i < contract.expected.len() && all
        invariant
            i <= contract.expected@.len(),
            full.len() == contract.expected@.len(),
            full == presence(contract.expected@, *world, entity),
            found@.len() == i,
            forall|j: int| 0 <= j < i ==> found@[j] == full[j],
            all ==> forall|j: int| 0 <= j < i ==> found@[j],
            !all ==> i > 0 && !found@[i - 1],
        decreases contract.expected@.len() - i,
    {
        let here = match component_id_of(world, contract.expected[i].id) {
            Some(component) => entity_has(world, entity, component),
            None => false,
        };
        assert(here == full[i as int]);
        found.push(here);
        all = here;
        i = i + 1;
    }
    let r = check_presence(contract, entity, &found);
    if all {
        assert(found@ =~= full);
    } else {
        assert(!full[i - 1]);
        assert(!all_found(full));
        assert(!all_found(found@));
    }
    r
}

} // verus!
