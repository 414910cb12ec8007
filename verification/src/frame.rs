//! World-space affine frames and the re-basing of a position into a frame.
//!
//! A frame carries its linear part together with a stored exact integer
//! inverse, so re-expressing a world-space position in the frame —
//! `inverse(frame)` applied to the position — is computed without division.
//! The frames this model can store are exactly the affine maps whose linear
//! part has an integer inverse: every translation, and any combination of
//! quarter-turn rotations, reflections, axis permutations and integer shears.

use vstd::prelude::*;
use crate::math::{Matrix3, Vector3, FRAME_BOUND};
use crate::math::{apply_row, lemma_abs_mul_bound, lemma_inverse_cancels};

verus! {

/// A resolved world-space transform: an affine map with linear part
/// `linear`, translation `translation`, and `inverse` a stored left inverse
/// of `linear`. All components are bounded so that re-basing stays in `i64`.
#[derive(Clone, Copy, PartialEq, Eq, Structural, Debug, Hash)]
pub struct Affine {
    pub linear: Matrix3,
    pub inverse: Matrix3,
    pub translation: Vector3,
}

impl Affine {
    /// Well-formed: bounded components and `inverse * linear == identity`.
    pub open spec fn wf(self) -> bool {
        &&& self.linear.in_bounds()
        &&& self.inverse.in_bounds()
        &&& self.translation.in_bounds()
        &&& self.inverse.is_inverse_of(self.linear)
    }

    /// The identity frame: world origin, no rotation, unit scale.
    pub open spec fn spec_identity() -> Affine {
        Affine {
            linear: Matrix3::spec_identity(),
            inverse: Matrix3::spec_identity(),
            translation: Vector3 { x: 0, y: 0, z: 0 },
        }
    }

    pub fn identity() -> (r: Affine)
        ensures
            r == Affine::spec_identity(),
            r.wf(),
    {
        let r = Affine {
            linear: Matrix3::identity(),
            inverse: Matrix3::identity(),
            translation: Vector3::zero(),
        };
        proof {
            lemma_identity_wf();
        }
        r
    }

    /// Builds a frame after checking, at run time, that the parts are
    /// bounded and that `inverse` really is a left inverse of `linear`;
    /// returns the frame exactly when they are.
    pub fn new(linear: Matrix3, inverse: Matrix3, translation: Vector3) -> (r: Option<Affine>)
        ensures
            match r {
                Some(a) => a == (Affine { linear, inverse, translation }) && a.wf(),
                None => !(Affine { linear, inverse, translation }).wf(),
            },
    {
        if !linear.check_bounds() || !inverse.check_bounds() || !translation.check_bounds() {
            return None;
        }
        let ok = apply_row(inverse.m00, inverse.m01, inverse.m02, linear.m00, linear.m10, linear.m20) == 1
            && apply_row(inverse.m00, inverse.m01, inverse.m02, linear.m01, linear.m11, linear.m21) == 0
            && apply_row(inverse.m00, inverse.m01, inverse.m02, linear.m02, linear.m12, linear.m22) == 0
            && apply_row(inverse.m10, inverse.m11, inverse.m12, linear.m00, linear.m10, linear.m20) == 0
            && apply_row(inverse.m10, inverse.m11, inverse.m12, linear.m01, linear.m11, linear.m21) == 1
            && apply_row(inverse.m10, inverse.m11, inverse.m12, linear.m02, linear.m12, linear.m22) == 0
            && apply_row(inverse.m20, inverse.m21, inverse.m22, linear.m00, linear.m10, linear.m20) == 0
            && apply_row(inverse.m20, inverse.m21, inverse.m22, linear.m01, linear.m11, linear.m21) == 0
            && apply_row(inverse.m20, inverse.m21, inverse.m22, linear.m02, linear.m12, linear.m22) == 1;
        if ok {
            Some(Affine { linear, inverse, translation })
        } else {
            None
        }
    }

    /// A frame that only translates: identity linear part.
    pub fn from_translation(translation: Vector3) -> (r: Option<Affine>)
        ensures
            match r {
                Some(a) => {
                    &&& a.linear == Matrix3::spec_identity()
                    &&& a.inverse == Matrix3::spec_identity()
                    &&& a.translation == translation
                    &&& a.wf()
                },
                None => !translation.in_bounds(),
            },
    {
        if translation.check_bounds() {
            let r = Affine {
                linear: Matrix3::identity(),
                inverse: Matrix3::identity(),
                translation,
            };
            proof {
                lemma_identity_wf();
            }
            Some(r)
        } else {
            None
        }
    }

    /// The X coordinate of `world` re-expressed in this frame:
    /// row `0` of `inverse` applied to `world - translation`.
    pub open spec fn spec_reparent_x(self, world: Vector3) -> int {
        self.inverse.row_x(
            world.x - self.translation.x,
            world.y - self.translation.y,
            world.z - self.translation.z,
        )
    }

    /// The Y coordinate of `world` re-expressed in this frame.
    pub open spec fn spec_reparent_y(self, world: Vector3) -> int {
        self.inverse.row_y(
            world.x - self.translation.x,
            world.y - self.translation.y,
            world.z - self.translation.z,
        )
    }

    /// The Z coordinate of `world` re-expressed in this frame.
    pub open spec fn spec_reparent_z(self, world: Vector3) -> int {
        self.inverse.row_z(
            world.x - self.translation.x,
            world.y - self.translation.y,
            world.z - self.translation.z,
        )
    }

    /// Re-expresses the world-space position `world` in this frame: the
    /// frame's inverse applied to `world`, accounting for the frame's
    /// rotation, reflection and shear, not only its translation.
    pub fn reparent_translation(&self, world: &Vector3) -> (r: Vector3)
        requires
            self.wf(),
            world.in_bounds(),
        ensures
            r.x == self.spec_reparent_x(*world),
            r.y == self.spec_reparent_y(*world),
            r.z == self.spec_reparent_z(*world),
    {
        let dx = world.x - self.translation.x;
        let dy = world.y - self.translation.y;
        let dz = world.z - self.translation.z;
        Vector3 {
            x: apply_row(self.inverse.m00, self.inverse.m01, self.inverse.m02, dx, dy, dz),
            y: apply_row(self.inverse.m10, self.inverse.m11, self.inverse.m12, dx, dy, dz),
            z: apply_row(self.inverse.m20, self.inverse.m21, self.inverse.m22, dx, dy, dz),
        }
    }
}

/// The X coordinate of the frame applied to a local position: row `0` of
/// the frame's linear part applied to the position, plus the frame's
/// translation. This is how hierarchy propagation turns a local transform
/// under a parent frame into a world-space position.
pub open spec fn spec_compose_x(frame: Affine, local: Vector3) -> int {
    frame.linear.row_x(local.x as int, local.y as int, local.z as int) + frame.translation.x
}

/// The Y coordinate of the frame applied to a local position.
pub open spec fn spec_compose_y(frame: Affine, local: Vector3) -> int {
    frame.linear.row_y(local.x as int, local.y as int, local.z as int) + frame.translation.y
}

/// The Z coordinate of the frame applied to a local position.
pub open spec fn spec_compose_z(frame: Affine, local: Vector3) -> int {
    frame.linear.row_z(local.x as int, local.y as int, local.z as int) + frame.translation.z
}

/// Applies the frame to a local position, giving the world-space position a
/// consistent hierarchy propagation would store for it; `None` when a
/// coordinate leaves the bounded range of stored frames.
pub fn compose_translation(frame: &Affine, local: &Vector3) -> (r: Option<Vector3>)
    requires
        frame.wf(),
    ensures
        match r {
            Some(v) => {
                &&& v.x == spec_compose_x(*frame, *local)
                &&& v.y == spec_compose_y(*frame, *local)
                &&& v.z == spec_compose_z(*frame, *local)
                &&& v.in_bounds()
            },
            None => !{
                &&& -FRAME_BOUND <= spec_compose_x(*frame, *local) <= FRAME_BOUND
                &&& -FRAME_BOUND <= spec_compose_y(*frame, *local) <= FRAME_BOUND
                &&& -FRAME_BOUND <= spec_compose_z(*frame, *local) <= FRAME_BOUND
            },
        },
{
    proof {
        lemma_abs_mul_bound(frame.linear.m00 as int, local.x as int, FRAME_BOUND as int, 0x8000000000000000);
        lemma_abs_mul_bound(frame.linear.m01 as int, local.y as int, FRAME_BOUND as int, 0x8000000000000000);
        lemma_abs_mul_bound(frame.linear.m02 as int, local.z as int, FRAME_BOUND as int, 0x8000000000000000);
        lemma_abs_mul_bound(frame.linear.m10 as int, local.x as int, FRAME_BOUND as int, 0x8000000000000000);
        lemma_abs_mul_bound(frame.linear.m11 as int, local.y as int, FRAME_BOUND as int, 0x8000000000000000);
        lemma_abs_mul_bound(frame.linear.m12 as int, local.z as int, FRAME_BOUND as int, 0x8000000000000000);
        lemma_abs_mul_bound(frame.linear.m20 as int, local.x as int, FRAME_BOUND as int, 0x8000000000000000);
        lemma_abs_mul_bound(frame.linear.m21 as int, local.y as int, FRAME_BOUND as int, 0x8000000000000000);
        lemma_abs_mul_bound(frame.linear.m22 as int, local.z as int, FRAME_BOUND as int, 0x8000000000000000);
    }
    let cx: i128 = (frame.linear.m00 as i128) * (local.x as i128) + (frame.linear.m01 as i128) * (
    local.y as i128) + (frame.linear.m02 as i128) * (local.z as i128) + (frame.translation.x
        as i128);
    let cy: i128 = (frame.linear.m10 as i128) * (local.x as i128) + (frame.linear.m11 as i128) * (
    local.y as i128) + (frame.linear.m12 as i128) * (local.z as i128) + (frame.translation.y
        as i128);
    let cz: i128 = (frame.linear.m20 as i128) * (local.x as i128) + (frame.linear.m21 as i128) * (
    local.y as i128) + (frame.linear.m22 as i128) * (local.z as i128) + (frame.translation.z
        as i128);
    let bound: i128 = FRAME_BOUND as i128;
    if -bound <= cx && cx <= bound && -bound <= cy && cy <= bound && -bound <= cz && cz <= bound {
        Some(Vector3 { x: cx as i64, y: cy as i64, z: cz as i64 })
    } else {
        None
    }
}

/// The identity frame is well-formed.
pub proof fn lemma_identity_wf()
    ensures
        Affine::spec_identity().wf(),
{
}

/// Re-expressing a position in the identity frame gives the position back.
pub proof fn lemma_reparent_identity(world: Vector3)
    ensures
        Affine::spec_identity().spec_reparent_x(world) == world.x,
        Affine::spec_identity().spec_reparent_y(world) == world.y,
        Affine::spec_identity().spec_reparent_z(world) == world.z,
{
}

/// Re-basing undoes composition: when `world` is the frame applied to a
/// local position — `world == frame.linear * local + frame.translation`,
/// row by row — re-expressing `world` in the frame gives back `local`.
pub proof fn lemma_reparent_roundtrip(frame: Affine, local: Vector3, world: Vector3)
    requires
        frame.inverse.is_inverse_of(frame.linear),
        world.x == frame.linear.row_x(local.x as int, local.y as int, local.z as int)
            + frame.translation.x,
        world.y == frame.linear.row_y(local.x as int, local.y as int, local.z as int)
            + frame.translation.y,
        world.z == frame.linear.row_z(local.x as int, local.y as int, local.z as int)
            + frame.translation.z,
    ensures
        frame.spec_reparent_x(world) == local.x,
        frame.spec_reparent_y(world) == local.y,
        frame.spec_reparent_z(world) == local.z,
{
    lemma_inverse_cancels(
        frame.inverse,
        frame.linear,
        local.x as int,
        local.y as int,
        local.z as int,
    );
}

} // verus!
