//! The laws the resolver obeys, each proved from the contracts of the
//! alignment pass alone.

use vstd::prelude::*;
use crate::align::{
    spec_aligned_translation, spec_apply, spec_frame, spec_report, spec_resolve_result,
    spec_resolve_transform, AlignEntry, AlignError, AlignReport, Aligning, Transform,
};
use crate::frame::{
    lemma_identity_wf, lemma_reparent_roundtrip, spec_compose_x, spec_compose_y, spec_compose_z,
    Affine,
};
use crate::store::globals_wf;

verus! {

/// Axis selectivity: on a successful resolution, every enabled axis of the
/// resulting translation equals the target's world-space position
/// re-expressed in the entity's reference frame on that axis, and every
/// disabled axis keeps its previous value, unchanged.
pub proof fn lemma_axis_selectivity(
    aligning: Aligning,
    transform: Transform,
    parent: Option<u64>,
    g: Map<u64, Affine>,
)
    requires
        spec_resolve_result(aligning, parent, g) is Ok,
    ensures
        ({
            let res = spec_resolve_transform(aligning, transform, parent, g);
            let frame = spec_frame(parent, g);
            let world = g[aligning.target].translation;
            &&& res.translation.x == if aligning.enabled.x {
                frame.spec_reparent_x(world) as i64
            } else {
                transform.translation.x
            }
            &&& res.translation.y == if aligning.enabled.y {
                frame.spec_reparent_y(world) as i64
            } else {
                transform.translation.y
            }
            &&& res.translation.z == if aligning.enabled.z {
                frame.spec_reparent_z(world) as i64
            } else {
                transform.translation.z
            }
            &&& res.linear == transform.linear
        }),
{
}

/// No-parent reduction: when an entity has no parent its reference frame is
/// the identity, so an enabled axis takes exactly the target's world-space
/// translation component, and a disabled axis keeps its previous value.
pub proof fn lemma_no_parent_reduction(
    aligning: Aligning,
    transform: Transform,
    g: Map<u64, Affine>,
)
    requires
        g.contains_key(aligning.target),
    ensures
        ({
            let res = spec_resolve_transform(aligning, transform, None, g);
            let world = g[aligning.target].translation;
            &&& res.translation.x == if aligning.enabled.x {
                world.x
            } else {
                transform.translation.x
            }
            &&& res.translation.y == if aligning.enabled.y {
                world.y
            } else {
                transform.translation.y
            }
            &&& res.translation.z == if aligning.enabled.z {
                world.z
            } else {
                transform.translation.z
            }
            &&& res.linear == transform.linear
        }),
{
    crate::frame::lemma_reparent_identity(g[aligning.target].translation);
}

/// Dangling target: when the target has no resolvable world-space transform,
/// the entity is left exactly as it was and the report names that target.
pub proof fn lemma_dangling_target(entry: AlignEntry, g: Map<u64, Affine>)
    requires
        !g.contains_key(entry.aligning.target),
    ensures
        spec_apply(entry, g) == entry,
        spec_report(entry, g) == Some(
            AlignReport {
                entity: entry.id,
                error: AlignError::MissingTargetTransform(entry.aligning.target),
            },
        ),
{
}

/// Dangling parent: when the entity declares a parent with no resolvable
/// world-space transform, the entity is left exactly as it was and the
/// report names that parent.
pub proof fn lemma_dangling_parent(entry: AlignEntry, g: Map<u64, Affine>, p: u64)
    requires
        g.contains_key(entry.aligning.target),
        entry.parent == Some(p),
        !g.contains_key(p),
    ensures
        spec_apply(entry, g) == entry,
        spec_report(entry, g) == Some(
            AlignReport { entity: entry.id, error: AlignError::MissingParentTransform(p) },
        ),
{
}

/// Idempotence under static input: while the snapshot of world-space
/// transforms does not change, resolving an entity a second time leaves
/// exactly what the first resolution produced.
pub proof fn lemma_static_input_idempotent(entry: AlignEntry, g: Map<u64, Affine>)
    ensures
        spec_apply(spec_apply(entry, g), g) == spec_apply(entry, g),
{
    let once = spec_apply(entry, g);
    if spec_resolve_result(entry.aligning, entry.parent, g) is Ok {
        assert(spec_aligned_translation(
            once.aligning,
            once.transform.translation,
            once.parent,
            g,
        ) == once.transform.translation);
    }
}

/// Self-target fixed point: an entity whose target is itself, with every
/// axis enabled, keeps its translation, provided the snapshot is consistent:
/// the entity's stored world-space position is its reference frame applied
/// to its local translation, as hierarchy propagation computes it.
pub proof fn lemma_self_target_fixed_point(entry: AlignEntry, g: Map<u64, Affine>)
    requires
        globals_wf(g),
        entry.aligning.target == entry.id,
        entry.aligning.enabled.x,
        entry.aligning.enabled.y,
        entry.aligning.enabled.z,
        g.contains_key(entry.id),
        match entry.parent {
            Some(p) => g.contains_key(p),
            None => true,
        },
        g[entry.id].translation.x == spec_compose_x(
            spec_frame(entry.parent, g),
            entry.transform.translation,
        ),
        g[entry.id].translation.y == spec_compose_y(
            spec_frame(entry.parent, g),
            entry.transform.translation,
        ),
        g[entry.id].translation.z == spec_compose_z(
            spec_frame(entry.parent, g),
            entry.transform.translation,
        ),
    ensures
        spec_apply(entry, g) == entry,
{
    let frame = spec_frame(entry.parent, g);
    let world = g[entry.id].translation;
    match entry.parent {
        Some(p) => {
            assert(g[p].wf());
        },
        None => {
            lemma_identity_wf();
        },
    }
    lemma_reparent_roundtrip(frame, entry.transform.translation, world);
    assert(spec_aligned_translation(entry.aligning, entry.transform.translation, entry.parent, g)
        == entry.transform.translation);
}

/// Independence: an entity's outcome is a function of its own record and the
/// snapshot alone — resolving never lets one record influence another's
/// stored transform.
pub proof fn lemma_independence(
    first: Seq<AlignEntry>,
    second: Seq<AlignEntry>,
    g: Map<u64, Affine>,
    j: int,
)
    requires
        0 <= j < first.len(),
        0 <= j < second.len(),
        first[j] == second[j],
    ensures
        spec_apply(first[j], g) == spec_apply(second[j], g),
{
}

} // verus!
