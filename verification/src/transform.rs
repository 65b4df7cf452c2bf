//! Transforms: how a point of one space lies in another.
//!
//! The playbox lies in the camera rig's space by a translation and a scale;
//! the rig lies in the world by any affine map. A point of the playbox is
//! carried into the world by applying first the one, then the other.

use vstd::prelude::*;
use crate::units::{in_units, scale_length, scaled, to_units, Vector3, UNIT};

verus! {

/// A translation and a per-axis scale; no rotation.
#[derive(Clone, Copy, Debug, PartialEq, Eq, Structural)]
pub struct Transform {
    pub translation: Vector3,
    pub scale: Vector3,
}

/// Whether `v` fits a coordinate.
pub open spec fn fits(v: int) -> bool {
    i64::MIN <= v <= i64::MAX
}

impl Transform {
    /// The transform that moves nothing.
    pub open spec fn identity() -> Transform {
        Transform {
            translation: Vector3::zero(),
            scale: Vector3 { x: UNIT, y: UNIT, z: UNIT },
        }
    }

    /// Where `p` lands along one axis.
    pub open spec fn along(translation: int, scale: int, p: int) -> int {
        translation + scaled(scale, p)
    }

    /// Where the transform takes `p`: scaled, then translated; `None` where a
    /// coordinate of the image does not fit.
    pub open spec fn image(self, p: Vector3) -> Option<Vector3> {
        let x = Self::along(self.translation.x as int, self.scale.x as int, p.x as int);
        let y = Self::along(self.translation.y as int, self.scale.y as int, p.y as int);
        let z = Self::along(self.translation.z as int, self.scale.z as int, p.z as int);
        if fits(x) && fits(y) && fits(z) {
            Some(Vector3 { x: x as i64, y: y as i64, z: z as i64 })
        } else {
            None
        }
    }

    /// Transforms a point.
    pub fn transform_point(&self, p: Vector3) -> (q: Option<Vector3>)
        ensures
            q == self.image(p),
    {
        let x = self.translation.x as i128 + scale_length(self.scale.x, p.x);
        let y = self.translation.y as i128 + scale_length(self.scale.y, p.y);
        let z = self.translation.z as i128 + scale_length(self.scale.z, p.z);
        if x < i64::MIN as i128 || x > i64::MAX as i128 || y < i64::MIN as i128 || y
            > i64::MAX as i128 || z < i64::MIN as i128 || z > i64::MAX as i128 {
            None
        } else {
            Some(Vector3 { x: x as i64, y: y as i64, z: z as i64 })
        }
    }
}

/// The origin stays where the translation puts it.
pub proof fn lemma_origin_goes_to_translation(t: Transform)
    ensures
        t.image(Vector3::zero()) == Some(t.translation),
{
    assert(t.scale.x * 0 == 0 && t.scale.y * 0 == 0 && t.scale.z * 0 == 0);
}

/// A direction with components small enough to multiply freely: the image
/// of a unit axis under a rotation and a moderate scale.
#[derive(Clone, Copy, Debug, PartialEq, Eq, Structural)]
pub struct Axis {
    pub x: i32,
    pub y: i32,
    pub z: i32,
}

/// An affine map: the images of the three unit axes, and a translation.
#[derive(Clone, Copy, Debug, PartialEq, Eq, Structural)]
pub struct Affine {
    pub x_axis: Axis,
    pub y_axis: Axis,
    pub z_axis: Axis,
    pub translation: Vector3,
}

impl Affine {
    /// The map that moves nothing.
    pub open spec fn identity() -> Affine {
        Affine {
            x_axis: Axis { x: UNIT as i32, y: 0, z: 0 },
            y_axis: Axis { x: 0, y: UNIT as i32, z: 0 },
            z_axis: Axis { x: 0, y: 0, z: UNIT as i32 },
            translation: Vector3::zero(),
        }
    }

    /// Where `p` lands along one axis, given what each unit axis contributes
    /// to it.
    pub open spec fn along(translation: int, from_x: int, from_y: int, from_z: int, p: Vector3)
        -> int {
        translation + in_units(from_x * p.x + from_y * p.y + from_z * p.z)
    }

    /// Where the map takes `p`: `p.x` times the image of the `x` axis, and so
    /// on, summed, rounded down once and translated; `None` where a
    /// coordinate of the image does not fit.
    pub open spec fn image(self, p: Vector3) -> Option<Vector3> {
        let x = Self::along(
            self.translation.x as int,
            self.x_axis.x as int,
            self.y_axis.x as int,
            self.z_axis.x as int,
            p,
        );
        let y = Self::along(
            self.translation.y as int,
            self.x_axis.y as int,
            self.y_axis.y as int,
            self.z_axis.y as int,
            p,
        );
        let z = Self::along(
            self.translation.z as int,
            self.x_axis.z as int,
            self.y_axis.z as int,
            self.z_axis.z as int,
            p,
        );
        if fits(x) && fits(y) && fits(z) {
            Some(Vector3 { x: x as i64, y: y as i64, z: z as i64 })
        } else {
            None
        }
    }

    /// The map that moves nothing.
    pub fn new() -> (map: Affine)
        ensures
            map == Affine::identity(),
    {
        Affine {
            x_axis: Axis { x: UNIT as i32, y: 0, z: 0 },
            y_axis: Axis { x: 0, y: UNIT as i32, z: 0 },
            z_axis: Axis { x: 0, y: 0, z: UNIT as i32 },
            translation: Vector3 { x: 0, y: 0, z: 0 },
        }
    }

    /// Where `p` lands along one axis.
    fn coordinate(translation: i64, from_x: i32, from_y: i32, from_z: i32, p: Vector3) -> (c: i128)
        ensures
            c == Self::along(
                translation as int,
                from_x as int,
                from_y as int,
                from_z as int,
                p,
            ),
    {
        assert(-0x4000_0000_0000_0000_0000_0000 <= from_x * p.x <= 0x4000_0000_0000_0000_0000_0000)
            by (nonlinear_arith)
            requires
                -0x8000_0000 <= from_x <= 0x7FFF_FFFF,
                -0x8000_0000_0000_0000 <= p.x <= 0x7FFF_FFFF_FFFF_FFFF,
        ;
        assert(-0x4000_0000_0000_0000_0000_0000 <= from_y * p.y <= 0x4000_0000_0000_0000_0000_0000)
            by (nonlinear_arith)
            requires
                -0x8000_0000 <= from_y <= 0x7FFF_FFFF,
                -0x8000_0000_0000_0000 <= p.y <= 0x7FFF_FFFF_FFFF_FFFF,
        ;
        assert(-0x4000_0000_0000_0000_0000_0000 <= from_z * p.z <= 0x4000_0000_0000_0000_0000_0000)
            by (nonlinear_arith)
            requires
                -0x8000_0000 <= from_z <= 0x7FFF_FFFF,
                -0x8000_0000_0000_0000 <= p.z <= 0x7FFF_FFFF_FFFF_FFFF,
        ;
        let sum: i128 = from_x as i128 * p.x as i128 + from_y as i128 * p.y as i128 + from_z as i128
            * p.z as i128;
        translation as i128 + to_units(sum)
    }

    /// Transforms a point.
    pub fn transform_point(&self, p: Vector3) -> (q: Option<Vector3>)
        ensures
            q == self.image(p),
    {
        let x = Self::coordinate(
            self.translation.x,
            self.x_axis.x,
            self.y_axis.x,
            self.z_axis.x,
            p,
        );
        let y = Self::coordinate(
            self.translation.y,
            self.x_axis.y,
            self.y_axis.y,
            self.z_axis.y,
            p,
        );
        let z = Self::coordinate(
            self.translation.z,
            self.x_axis.z,
            self.y_axis.z,
            self.z_axis.z,
            p,
        );
        if x < i64::MIN as i128 || x > i64::MAX as i128 || y < i64::MIN as i128 || y
            > i64::MAX as i128 || z < i64::MIN as i128 || z > i64::MAX as i128 {
            None
        } else {
            Some(Vector3 { x: x as i64, y: y as i64, z: z as i64 })
        }
    }
}

/// A map that keeps the axes only translates: every point moves by the
/// translation, as far as the coordinate range lets it.
pub proof fn lemma_unturned_map_translates(map: Affine, p: Vector3)
    requires
        map.x_axis == Affine::identity().x_axis,
        map.y_axis == Affine::identity().y_axis,
        map.z_axis == Affine::identity().z_axis,
    ensures
        fits(map.translation.x + p.x) && fits(map.translation.y + p.y) && fits(
            map.translation.z + p.z,
        ) ==> map.image(p) == Some(
            Vector3 {
                x: (map.translation.x + p.x) as i64,
                y: (map.translation.y + p.y) as i64,
                z: (map.translation.z + p.z) as i64,
            },
        ),
        !(fits(map.translation.x + p.x) && fits(map.translation.y + p.y) && fits(
            map.translation.z + p.z,
        )) ==> map.image(p) is None,
{
    assert(in_units(1_000_000 * p.x + 0 * p.y + 0 * p.z) == p.x);
    assert(in_units(0 * p.x + 1_000_000 * p.y + 0 * p.z) == p.y);
    assert(in_units(0 * p.x + 0 * p.y + 1_000_000 * p.z) == p.z);
}

} // verus!
