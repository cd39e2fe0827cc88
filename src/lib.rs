//! Declared component expectations for an ECS world, and their validation.
//!
//! A declaring component type carries a [`Contract`]: the ordered list of
//! component types that must already be on an entity when the declaring type
//! is inserted. Validation looks each expected type up in the world and
//! reports the first one that is missing.

pub mod contract;
mod ecs;
pub mod laws;
pub mod validate;

pub use contract::{Contract, DeclarationError, Expected};
pub use validate::{check_presence, validate, Violation};
pub use laws::{
    lemma_complete_entity_passes, lemma_incomplete_entity_fails, lemma_merged_member_required,
    lemma_merged_union_passes,
};
