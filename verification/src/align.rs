//! The alignment resolver: per-entity directives, errors, and the per-tick
//! pass that rewrites local translations.
//!
//! For every entity carrying an [`Aligning`] directive, the pass looks the
//! target's world-space transform up, re-expresses it in the entity's own
//! parent-relative frame, and overwrites the enabled axes of the entity's
//! local translation, leaving the other axes and the rest of the transform
//! untouched.

use vstd::prelude::*;
use crate::frame::Affine;
use crate::math::{Matrix3, Vector3};
use crate::store::WorldTransforms;

verus! {

/// Sentinel entity id meaning "no entity": the default, inert target.
pub const NO_ENTITY: u64 = u64::MAX;

/// Per-axis selection mask over the X, Y and Z coordinate axes.
#[derive(Clone, Copy, PartialEq, Eq, Structural, Debug, Hash)]
pub struct AxisMask {
    pub x: bool,
    pub y: bool,
    pub z: bool,
}

impl AxisMask {
    /// A mask that selects no axis.
    pub fn none() -> (r: AxisMask)
        ensures
            r == (AxisMask { x: false, y: false, z: false }),
    {
        AxisMask { x: false, y: false, z: false }
    }

    /// A mask that selects every axis.
    pub fn all() -> (r: AxisMask)
        ensures
            r == (AxisMask { x: true, y: true, z: true }),
    {
        AxisMask { x: true, y: true, z: true }
    }

    pub fn new(x: bool, y: bool, z: bool) -> (r: AxisMask)
        ensures
            r == (AxisMask { x, y, z }),
    {
        AxisMask { x, y, z }
    }
}

impl Default for AxisMask {
    /// The default mask selects no axis.
    fn default() -> (r: AxisMask)
        ensures
            r == (AxisMask { x: false, y: false, z: false }),
    {
        AxisMask { x: false, y: false, z: false }
    }
}

/// Component-wise selection: where the mask enables an axis the aligned
/// component is taken, elsewhere the current component is kept.
pub fn select3<T: Copy>(enabled: AxisMask, aligned: (T, T, T), current: (T, T, T)) -> (r: (T, T, T))
    ensures
        r.0 == (if enabled.x { aligned.0 } else { current.0 }),
        r.1 == (if enabled.y { aligned.1 } else { current.1 }),
        r.2 == (if enabled.z { aligned.2 } else { current.2 }),
{
    (
        if enabled.x { aligned.0 } else { current.0 },
        if enabled.y { aligned.1 } else { current.1 },
        if enabled.z { aligned.2 } else { current.2 },
    )
}

/// A directive for aligning: track `target`'s world-space position on every
/// axis that `enabled` selects. An entity with this directive should also
/// have a [`Transform`].
#[derive(Clone, Copy, PartialEq, Eq, Structural, Debug, Hash)]
pub struct Aligning {
    /// The entity whose world-space position is tracked.
    pub target: u64,
    /// Which components of the local translation are aligned.
    pub enabled: AxisMask,
}

impl Aligning {
    pub fn new(target: u64, enabled: AxisMask) -> (r: Aligning)
        ensures
            r == (Aligning { target, enabled }),
    {
        Aligning { target, enabled }
    }
}

impl Default for Aligning {
    /// The default directive is inert: sentinel target, no axis enabled.
    fn default() -> (r: Aligning)
        ensures
            r.target == NO_ENTITY,
            r.enabled == (AxisMask { x: false, y: false, z: false }),
    {
        Aligning { target: NO_ENTITY, enabled: AxisMask { x: false, y: false, z: false } }
    }
}

/// An entity's local transform, relative to its parent (or to the world when
/// it has no parent): a translation and a linear part standing for rotation
/// and scale. The resolver rewrites only the translation.
#[derive(Clone, Copy, PartialEq, Eq, Structural, Debug, Hash)]
pub struct Transform {
    pub translation: Vector3,
    pub linear: Matrix3,
}

impl Transform {
    /// A transform that only translates.
    pub fn from_translation(translation: Vector3) -> (r: Transform)
        ensures
            r.translation == translation,
            r.linear == Matrix3::spec_identity(),
    {
        Transform { translation, linear: Matrix3::identity() }
    }
}

/// Why one entity could not be aligned this tick. Both kinds are per-entity
/// and non-fatal: the entity's transform is left as it was.
#[derive(Clone, Copy, PartialEq, Eq, Structural, Debug, Hash)]
pub enum AlignError {
    /// The directive's target has no resolvable world-space transform; holds
    /// the target's id.
    MissingTargetTransform(u64),
    /// The entity's declared parent has no resolvable world-space transform;
    /// holds the parent's id.
    MissingParentTransform(u64),
}

/// A diagnostic report: which entity failed to align, and why.
#[derive(Clone, Copy, PartialEq, Eq, Structural, Debug, Hash)]
pub struct AlignReport {
    /// The entity that was being aligned.
    pub entity: u64,
    /// The lookup that failed.
    pub error: AlignError,
}

/// One aligned entity's record for a pass: its id, directive, local
/// transform and optional parent.
#[derive(Clone, Copy, PartialEq, Eq, Structural, Debug, Hash)]
pub struct AlignEntry {
    pub id: u64,
    pub aligning: Aligning,
    pub transform: Transform,
    pub parent: Option<u64>,
}

/// Whether resolution succeeds for a directive, and with which error it
/// fails: the target must have a world-space transform, then the declared
/// parent, if any, must have one.
pub open spec fn spec_resolve_result(
    aligning: Aligning,
    parent: Option<u64>,
    g: Map<u64, Affine>,
) -> Result<(), AlignError> {
    if !g.contains_key(aligning.target) {
        Err(AlignError::MissingTargetTransform(aligning.target))
    } else {
        match parent {
            Some(p) => if !g.contains_key(p) {
                Err(AlignError::MissingParentTransform(p))
            } else {
                Ok(())
            },
            None => Ok(()),
        }
    }
}

/// The entity's reference frame: the parent's world-space transform, or the
/// identity frame when the entity has no parent.
pub open spec fn spec_frame(parent: Option<u64>, g: Map<u64, Affine>) -> Affine {
    match parent {
        Some(p) => g[p],
        None => Affine::spec_identity(),
    }
}

/// The translation after a successful resolution: on each enabled axis the
/// target's world-space position re-expressed in the entity's reference
/// frame, on each disabled axis the current component, unchanged.
pub open spec fn spec_aligned_translation(
    aligning: Aligning,
    current: Vector3,
    parent: Option<u64>,
    g: Map<u64, Affine>,
) -> Vector3 {
    let frame = spec_frame(parent, g);
    let world = g[aligning.target].translation;
    Vector3 {
        x: if aligning.enabled.x {
            frame.spec_reparent_x(world) as i64
        } else {
            current.x
        },
        y: if aligning.enabled.y {
            frame.spec_reparent_y(world) as i64
        } else {
            current.y
        },
        z: if aligning.enabled.z {
            frame.spec_reparent_z(world) as i64
        } else {
            current.z
        },
    }
}

/// The transform after one resolution: translation rewritten on success,
/// everything as it was on failure; rotation and scale are never touched.
pub open spec fn spec_resolve_transform(
    aligning: Aligning,
    transform: Transform,
    parent: Option<u64>,
    g: Map<u64, Affine>,
) -> Transform {
    if spec_resolve_result(aligning, parent, g) is Ok {
        Transform {
            translation: spec_aligned_translation(aligning, transform.translation, parent, g),
            linear: transform.linear,
        }
    } else {
        transform
    }
}

/// Resolves one entity: on success overwrites the enabled axes of
/// `transform`'s translation with the target's world-space position
/// re-expressed in the entity's reference frame; on a failed lookup leaves
/// `transform` exactly as it was and says which lookup failed.
pub fn resolve_entity(
    aligning: &Aligning,
    transform: &mut Transform,
    parent: Option<u64>,
    globals: &WorldTransforms,
) -> (r: Result<(), AlignError>)
    requires
        globals.wf(),
    ensures
        r == spec_resolve_result(*aligning, parent, globals@),
        *final(transform) == spec_resolve_transform(*aligning, *old(transform), parent, globals@),
{
    let world = match globals.get(aligning.target) {
        Some(g) => g.translation,
        None => {
            return Err(AlignError::MissingTargetTransform(aligning.target));
        },
    };
    let frame: Affine = match parent {
        Some(p) => match globals.get(p) {
            Some(f) => *f,
            None => {
                return Err(AlignError::MissingParentTransform(p));
            },
        },
        None => Affine::identity(),
    };
    let local = frame.reparent_translation(&world);
    let (x, y, z) = select3(
        aligning.enabled,
        (local.x, local.y, local.z),
        (transform.translation.x, transform.translation.y, transform.translation.z),
    );
    transform.translation = Vector3 { x, y, z };
    Ok(())
}

/// One entity's record after a pass: the transform resolved against the
/// snapshot `g`, every other field unchanged.
pub open spec fn spec_apply(entry: AlignEntry, g: Map<u64, Affine>) -> AlignEntry {
    AlignEntry {
        transform: spec_resolve_transform(entry.aligning, entry.transform, entry.parent, g),
        ..entry
    }
}

/// The report one entity contributes: none on success.
pub open spec fn spec_report(entry: AlignEntry, g: Map<u64, Affine>) -> Option<AlignReport> {
    match spec_resolve_result(entry.aligning, entry.parent, g) {
        Ok(_) => None,
        Err(e) => Some(AlignReport { entity: entry.id, error: e }),
    }
}

/// The reports of a whole pass, in entry order.
pub open spec fn spec_reports(entries: Seq<AlignEntry>, g: Map<u64, Affine>) -> Seq<AlignReport>
    decreases entries.len(),
{
    if entries.len() == 0 {
        Seq::empty()
    } else {
        spec_reports(entries.drop_last(), g) + match spec_report(entries.last(), g) {
            Some(rep) => seq![rep],
            None => Seq::empty(),
        }
    }
}

/// Runs one alignment pass over every record: each entity is resolved
/// independently against the read-only snapshot `globals`, its transform
/// rewritten in place, and the failures reported in entry order. No record's
/// outcome depends on any other record.
pub fn align_entities(
    entries: &mut Vec<AlignEntry>,
    globals: &WorldTransforms,
) -> (reports: Vec<AlignReport>)
    requires
        globals.wf(),
    ensures
        final(entries)@.len() == old(entries)@.len(),
        forall|i: int|
            0 <= i < old(entries)@.len() ==> final(entries)@[i] == spec_apply(
                old(entries)@[i],
                globals@,
            ),
        reports@ == spec_reports(old(entries)@, globals@),
{
    let ghost orig: Seq<AlignEntry> = entries@;
    let mut reports: Vec<AlignReport> = Vec::new();
    let n = entries.len();
    let mut i: usize = 0;
    while i < n
        invariant
            globals.wf(),
            n == orig.len(),
            entries@.len() == n,
            i <= n,
            forall|j: int| 0 <= j < i ==> entries@[j] == spec_apply(orig[j], globals@),
            forall|j: int| i <= j < n ==> entries@[j] == orig[j],
            reports@ == spec_reports(orig.take(i as int), globals@),
        decreases n - i,
    {
        let entry = entries[i];
        let mut transform = entry.transform;
        let r = resolve_entity(&entry.aligning, &mut transform, entry.parent, globals);
        entries.set(i, AlignEntry { transform, ..entry });
        if let Err(e) = r {
            reports.push(AlignReport { entity: entry.id, error: e });
        }
        proof {
            assert(orig.take(i as int + 1).drop_last() =~= orig.take(i as int));
            assert(orig.take(i as int + 1).last() == orig[i as int]);
            match spec_report(orig[i as int], globals@) {
                Some(rep) => {
                    assert(reports@ =~= spec_reports(orig.take(i as int), globals@) + seq![rep]);
                },
                None => {
                    assert(spec_reports(orig.take(i as int), globals@) + Seq::<
                        AlignReport,
                    >::empty() =~= spec_reports(orig.take(i as int), globals@));
                },
            }
        }
        i = i + 1;
    }
    proof {
        assert(orig.take(n as int) =~= orig);
    }
    reports
}

} // verus!
