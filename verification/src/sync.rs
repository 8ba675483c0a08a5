//! Decisions of the system that keeps each water entity's material in step
//! with its water settings.
//!
//! Every frame the system looks at two groups of water entities: those whose
//! water component was just inserted, and those whose water component was
//! modified since the last run. For each such entity it performs at most one
//! material operation. The queries, the material store and the command buffer
//! belong to the ECS; what is decided here is which operation, if any, each
//! entity receives.
use vstd::prelude::*;

verus! {

/// What happened to a water entity since the synchronizing system last ran.
#[derive(Clone, Copy, Debug, PartialEq, Eq, Structural)]
pub enum WaterChange {
    /// The water component was just inserted: the entity carries no material yet.
    Added,
    /// The water component was modified. `material_exists` tells whether the
    /// material the entity points at is still held by the material store.
    Changed { material_exists: bool },
}

/// The material operation the synchronizing system performs for one entity.
#[derive(Clone, Copy, Debug, PartialEq, Eq, Structural)]
pub enum MaterialSync {
    /// Build a fresh material from the water settings, store it, and attach
    /// its handle to the entity.
    Create,
    /// Overwrite the base colour, the perceptual roughness and the shader
    /// settings of the entity's existing material, in place.
    Update,
    /// Leave the entity and the material store untouched.
    Skip,
}

/// The operation that the system owes an entity after `change`.
pub open spec fn owed_sync(change: WaterChange) -> MaterialSync {
    match change {
        WaterChange::Added => MaterialSync::Create,
        WaterChange::Changed { material_exists } => if material_exists {
            MaterialSync::Update
        } else {
            MaterialSync::Skip
        },
    }
}

/// Decides the material operation for one water entity.
///
/// A newly added water entity always gets a new material. A modified water
/// entity gets its existing material updated in place when the store still
/// holds it, and nothing otherwise: a modification never creates a second
/// material.
pub fn decide_sync(change: WaterChange) -> (action: MaterialSync)
    ensures
        action == owed_sync(change),
        (change is Added) <==> (action is Create),
        change matches WaterChange::Changed { material_exists } ==> (
            (action is Update) <==> material_exists),
{
    match change {
        WaterChange::Added => MaterialSync::Create,
        WaterChange::Changed { material_exists } => {
            if material_exists {
                MaterialSync::Update
            } else {
                MaterialSync::Skip
            }
        },
    }
}

} // verus!
