//! Alignment resolution for entities in a hierarchical scene graph.
//!
//! Each entity carrying an [`Aligning`] directive tracks selected axes of a
//! target entity's world-space position: the target's world-space transform
//! is re-expressed in the entity's own parent-relative frame, and the enabled
//! axes of the entity's local translation are overwritten with the result.
//! The pass runs once per tick over a snapshot of world-space transforms and
//! never writes anything but its own entity's translation.

use vstd::prelude::*;

pub mod align;
pub mod frame;
pub mod laws;
pub mod math;
pub mod store;

pub use align::{
    align_entities, resolve_entity, select3, AlignEntry, AlignError, AlignReport, Aligning,
    AxisMask, Transform, NO_ENTITY,
};
pub use frame::{compose_translation, Affine};
pub use math::{Matrix3, Vector3, FRAME_BOUND};
pub use store::WorldTransforms;

verus! {

/// A grouping of the components an aligned entity is constructed with: the
/// directive, its local transform, and a world-space transform slot.
#[derive(Clone, Copy, PartialEq, Eq, Structural, Debug, Hash)]
pub struct AligningBundle {
    pub aligning: align::Aligning,
    pub transform: align::Transform,
    pub global_transform: frame::Affine,
}

/// A registration marker for the alignment pass: a host adapter installs the
/// pass into its per-tick update phase under this unit.
#[derive(Clone, Copy, PartialEq, Eq, PartialOrd, Ord, Hash, Default, Debug)]
pub struct AlignPlugin;

} // verus!
