//! The playbox: a camera-attached box of six walls that the synchronizer keeps
//! flush with the camera's visible volume.
//!
//! The box is a unit cube under a transform local to the camera rig. The
//! camera looks down the negative `z` axis, so the wall at the cube's `+z`
//! face is the near one.

use vstd::prelude::*;
use crate::error::ConfigError;
use crate::frustum::{
    corner_at, frustum_corner, half_height, half_width, in_view, lemma_corner_encloses_frustum,
    lemma_every_window_has_a_corner, lemma_half_height_small, magnitude, Projection,
    WindowSize, MAX_EXTENT,
};
use crate::transform::Transform;
use crate::units::{lemma_ceil_div_bounds, lemma_ceil_div_unique, scaled, Vector3, UNIT};

verus! {

/// The depth at which the playbox's near face is fitted to the frustum: two
/// world units in front of the camera. The box is as deep again.
pub const REFERENCE_DEPTH: u32 = 2_000_000;

/// The six walls of the playbox, in the order in which its collider lists
/// them.
#[derive(Clone, Copy, Debug, PartialEq, Eq, Structural)]
pub enum Side {
    Ceiling,
    Floor,
    Right,
    Left,
    /// The wall nearest the camera.
    Back,
    /// The wall farthest from the camera.
    Front,
}

/// The widest field of view that the playbox can follow into every window: a
/// half-angle tangent of 2^29 millionths, which is a little under 180
/// degrees.
pub const WIDEST_HALF_FOV_TANGENT: u32 = 0x2000_0000;

/// A wall: solid behind the plane through `position`, open on the side that
/// `normal` points to.
#[derive(Clone, Copy, Debug, PartialEq, Eq, Structural)]
pub struct Wall {
    pub side: Side,
    /// A point on the wall's plane.
    pub position: Vector3,
    /// The unit normal of the plane, pointing out of the wall and into the
    /// box.
    pub normal: Vector3,
}

/// Half the edge of the unit cube.
pub const HALF: i64 = 500_000;

/// What a resize did to the playbox.
#[derive(Clone, Copy, Debug, PartialEq, Eq, Structural)]
pub enum SyncOutcome {
    /// No resize was reported: nothing to do.
    Idle,
    /// The window has no usable size yet, or the box would not fit the
    /// coordinate range: the playbox stays as it was.
    Skipped,
    /// The playbox was fitted to the frustum.
    Applied,
}

/// The playbox's transform for a frustum whose top-right corner at the
/// reference depth is `corner`: centred on the view axis, as wide and as high
/// as the frustum there, as deep as the reference depth, its near face at that
/// depth.
pub open spec fn fitted(corner: Vector3) -> Transform {
    Transform {
        translation: Vector3 { x: 0, y: 0, z: (-(corner.z + REFERENCE_DEPTH / 2)) as i64 },
        scale: Vector3 {
            x: (2 * corner.x) as i64,
            y: (2 * corner.y) as i64,
            z: REFERENCE_DEPTH as i64,
        },
    }
}

/// The playbox's transform after a resize to `window`, given the one before.
pub open spec fn synchronized(before: Transform, projection: Projection, window: WindowSize)
    -> Transform {
    match projection {
        Projection::Orthographic => before,
        Projection::Perspective { half_fov_tangent } => match corner_at(
            half_fov_tangent,
            window,
            REFERENCE_DEPTH,
        ) {
            Some(corner) => fitted(corner),
            None => before,
        },
    }
}

/// What a resize to `window` reports.
pub open spec fn sync_result(projection: Projection, window: WindowSize) -> Result<
    SyncOutcome,
    ConfigError,
> {
    match projection {
        Projection::Orthographic => Err(ConfigError::NotPerspective),
        Projection::Perspective { half_fov_tangent } => if corner_at(
            half_fov_tangent,
            window,
            REFERENCE_DEPTH,
        ) is Some {
            Ok(SyncOutcome::Applied)
        } else {
            Ok(SyncOutcome::Skipped)
        },
    }
}

/// The playbox's transform after the resizes of one frame: only the last one
/// counts, and without one the box stays as it was.
pub open spec fn resized(before: Transform, projection: Projection, resizes: Seq<WindowSize>)
    -> Transform {
    if resizes.len() == 0 {
        before
    } else {
        synchronized(before, projection, resizes.last())
    }
}

/// What the resizes of one frame report: what the last one does, and idling
/// without one, whatever the projection.
pub open spec fn resize_result(projection: Projection, resizes: Seq<WindowSize>) -> Result<
    SyncOutcome,
    ConfigError,
> {
    if resizes.len() == 0 {
        Ok(SyncOutcome::Idle)
    } else {
        sync_result(projection, resizes.last())
    }
}

/// The wall of the unit cube on `side`, in the box's own space.
pub open spec fn unit_wall(side: Side) -> Wall {
    match side {
        Side::Ceiling => Wall {
            side,
            position: Vector3 { x: 0, y: HALF, z: 0 },
            normal: Vector3 { x: 0, y: (-UNIT) as i64, z: 0 },
        },
        Side::Floor => Wall {
            side,
            position: Vector3 { x: 0, y: (-HALF) as i64, z: 0 },
            normal: Vector3 { x: 0, y: UNIT, z: 0 },
        },
        Side::Right => Wall {
            side,
            position: Vector3 { x: HALF, y: 0, z: 0 },
            normal: Vector3 { x: (-UNIT) as i64, y: 0, z: 0 },
        },
        Side::Left => Wall {
            side,
            position: Vector3 { x: (-HALF) as i64, y: 0, z: 0 },
            normal: Vector3 { x: UNIT, y: 0, z: 0 },
        },
        Side::Back => Wall {
            side,
            position: Vector3 { x: 0, y: 0, z: HALF },
            normal: Vector3 { x: 0, y: 0, z: (-UNIT) as i64 },
        },
        Side::Front => Wall {
            side,
            position: Vector3 { x: 0, y: 0, z: (-HALF) as i64 },
            normal: Vector3 { x: 0, y: 0, z: UNIT },
        },
    }
}

/// The sides in the order of the collider's list.
pub open spec fn sides() -> Seq<Side> {
    seq![Side::Ceiling, Side::Floor, Side::Right, Side::Left, Side::Back, Side::Front]
}

/// The wall of the unit cube on `side`.
pub fn unit_wall_on(side: Side) -> (wall: Wall)
    ensures
        wall == unit_wall(side),
{
    let (position, normal) = match side {
        Side::Ceiling => (Vector3 { x: 0, y: HALF, z: 0 }, Vector3 { x: 0, y: -UNIT, z: 0 }),
        Side::Floor => (Vector3 { x: 0, y: -HALF, z: 0 }, Vector3 { x: 0, y: UNIT, z: 0 }),
        Side::Right => (Vector3 { x: HALF, y: 0, z: 0 }, Vector3 { x: -UNIT, y: 0, z: 0 }),
        Side::Left => (Vector3 { x: -HALF, y: 0, z: 0 }, Vector3 { x: UNIT, y: 0, z: 0 }),
        Side::Back => (Vector3 { x: 0, y: 0, z: HALF }, Vector3 { x: 0, y: 0, z: -UNIT }),
        Side::Front => (Vector3 { x: 0, y: 0, z: -HALF }, Vector3 { x: 0, y: 0, z: UNIT }),
    };
    Wall { side, position, normal }
}

/// The camera-attached box.
#[derive(Clone, Copy, Debug)]
pub struct Playbox {
    transform: Transform,
}

impl View for Playbox {
    type V = Transform;

    /// The box's transform, local to the camera rig.
    closed spec fn view(&self) -> Transform {
        self.transform
    }
}

impl Playbox {
    /// The box is a closed prism within the coordinate range: along each
    /// axis its size is an even, non-negative number of steps, so that both
    /// of its faces lie on whole steps.
    pub open spec fn wf(self) -> bool {
        let t = self@;
        &&& 0 <= t.scale.x <= 2 * MAX_EXTENT && t.scale.x % 2 == 0
        &&& 0 <= t.scale.y <= 2 * MAX_EXTENT && t.scale.y % 2 == 0
        &&& 0 <= t.scale.z <= 2 * MAX_EXTENT && t.scale.z % 2 == 0
        &&& -MAX_EXTENT <= t.translation.x <= MAX_EXTENT
        &&& -MAX_EXTENT <= t.translation.y <= MAX_EXTENT
        &&& -MAX_EXTENT <= t.translation.z <= MAX_EXTENT
    }

    /// Every playbox that a program holds is well-formed.
    #[verifier::type_invariant]
    spec fn always_wf(self) -> bool {
        self.wf()
    }

    /// Where the right wall stands along the camera's `x` axis.
    pub open spec fn right(self) -> int {
        self@.translation.x + self@.scale.x / 2
    }

    /// Where the left wall stands along the camera's `x` axis.
    pub open spec fn left(self) -> int {
        self@.translation.x - self@.scale.x / 2
    }

    /// Where the ceiling stands along the camera's `y` axis.
    pub open spec fn top(self) -> int {
        self@.translation.y + self@.scale.y / 2
    }

    /// Where the floor stands along the camera's `y` axis.
    pub open spec fn bottom(self) -> int {
        self@.translation.y - self@.scale.y / 2
    }

    /// Where the near face stands along the camera's `z` axis.
    pub open spec fn near(self) -> int {
        self@.translation.z + self@.scale.z / 2
    }

    /// Where the far face stands along the camera's `z` axis.
    pub open spec fn far(self) -> int {
        self@.translation.z - self@.scale.z / 2
    }

    /// Whether the point `p` of camera space is within the walls, the walls
    /// themselves included.
    pub open spec fn holds(self, p: Vector3) -> bool {
        &&& self.left() <= p.x <= self.right()
        &&& self.bottom() <= p.y <= self.top()
        &&& self.far() <= p.z <= self.near()
    }

    /// The wall on `side` in camera space: the unit cube's wall carried
    /// through the box's transform.
    pub open spec fn wall(self, side: Side) -> Wall {
        let own = unit_wall(side);
        let position = match side {
            Side::Ceiling => Vector3 {
                x: self@.translation.x,
                y: self.top() as i64,
                z: self@.translation.z,
            },
            Side::Floor => Vector3 {
                x: self@.translation.x,
                y: self.bottom() as i64,
                z: self@.translation.z,
            },
            Side::Right => Vector3 {
                x: self.right() as i64,
                y: self@.translation.y,
                z: self@.translation.z,
            },
            Side::Left => Vector3 {
                x: self.left() as i64,
                y: self@.translation.y,
                z: self@.translation.z,
            },
            Side::Back => Vector3 {
                x: self@.translation.x,
                y: self@.translation.y,
                z: self.near() as i64,
            },
            Side::Front => Vector3 {
                x: self@.translation.x,
                y: self@.translation.y,
                z: self.far() as i64,
            },
        };
        Wall { side, position, normal: own.normal }
    }

    /// The unit cube at the rig's origin, as the box is before the first
    /// resize.
    pub fn new() -> (playbox: Playbox)
        ensures
            playbox@ == Transform::identity(),
            playbox.wf(),
    {
        Playbox {
            transform: Transform {
                translation: Vector3 { x: 0, y: 0, z: 0 },
                scale: Vector3 { x: UNIT, y: UNIT, z: UNIT },
            },
        }
    }

    /// The wall on `side` in camera space.
    pub fn wall_on(&self, side: Side) -> (wall: Wall)
        ensures
            self.wf(),
            wall == self.wall(side),
    {
        let own = unit_wall_on(side);
        proof {
            use_type_invariant(self);
            lemma_wall_is_carried(*self, side);
        }
        let position = self.transform.transform_point(own.position).unwrap();
        Wall { side, position, normal: own.normal }
    }

    /// The six walls in camera space, in the order of `sides()`.
    pub fn walls(&self) -> (walls: Vec<Wall>)
        ensures
            self.wf(),
            walls@.len() == 6,
            forall|i: int| 0 <= i < 6 ==> walls@[i] == self.wall(#[trigger] sides()[i]),
    {
        let mut walls: Vec<Wall> = Vec::new();
        walls.push(self.wall_on(Side::Ceiling));
        walls.push(self.wall_on(Side::Floor));
        walls.push(self.wall_on(Side::Right));
        walls.push(self.wall_on(Side::Left));
        walls.push(self.wall_on(Side::Back));
        walls.push(self.wall_on(Side::Front));
        walls
    }

    /// The box's transform, local to the camera rig.
    pub fn transform(&self) -> (t: Transform)
        ensures
            self.wf(),
            t == self@,
    {
        proof {
            use_type_invariant(self);
        }
        self.transform
    }

    /// Fits the box to the frustum of `projection` in a window of size
    /// `window`. An orthographic projection is a configuration error. A
    /// window with a zero side, or one so wide that the box would leave the
    /// coordinate range, leaves the box as it was. The result depends on the
    /// projection and the window alone, not on the box before.
    pub fn synchronize(&mut self, projection: Projection, window: WindowSize) -> (result: Result<
        SyncOutcome,
        ConfigError,
    >)
        ensures
            final(self)@ == synchronized(old(self)@, projection, window),
            result == sync_result(projection, window),
            final(self).wf(),
    {
        proof {
            use_type_invariant(&*self);
        }
        match projection {
            Projection::Orthographic => Err(ConfigError::NotPerspective),
            Projection::Perspective { half_fov_tangent } => {
                match frustum_corner(half_fov_tangent, window, REFERENCE_DEPTH) {
                    None => Ok(SyncOutcome::Skipped),
                    Some(corner) => {
                        proof {
                            lemma_half_height_small(half_fov_tangent, REFERENCE_DEPTH);
                        }
                        let middle: i64 = corner.z + (REFERENCE_DEPTH / 2) as i64;
                        self.transform = Transform {
                            translation: Vector3 { x: 0, y: 0, z: -middle },
                            scale: Vector3 {
                                x: 2 * corner.x,
                                y: 2 * corner.y,
                                z: REFERENCE_DEPTH as i64,
                            },
                        };
                        Ok(SyncOutcome::Applied)
                    },
                }
            },
        }
    }

    /// Handles the resizes reported in one frame. Only the last one counts;
    /// with none, nothing happens, whatever the projection.
    pub fn on_resize(&mut self, projection: Projection, resizes: &Vec<WindowSize>) -> (result:
        Result<SyncOutcome, ConfigError>)
        ensures
            final(self)@ == resized(old(self)@, projection, resizes@),
            result == resize_result(projection, resizes@),
            final(self).wf(),
    {
        proof {
            use_type_invariant(&*self);
        }
        let n = resizes.len();
        if n == 0 {
            Ok(SyncOutcome::Idle)
        } else {
            let last = resizes[n - 1];
            self.synchronize(projection, last)
        }
    }
}

/// Half of an even size, as the transform computes it for a point on the unit
/// cube's face.
pub proof fn lemma_half_of_even(size: int)
    requires
        size % 2 == 0,
    ensures
        scaled(size, HALF as int) == size / 2,
        scaled(size, -(HALF as int)) == -(size / 2),
        scaled(size, 0) == 0,
{
    let k = size / 2;
    assert(size == 2 * k);
    assert(size * 500_000 == k * 1_000_000) by (nonlinear_arith)
        requires
            size == 2 * k,
    ;
    assert(size * (-500_000) == (-k) * 1_000_000) by (nonlinear_arith)
        requires
            size == 2 * k,
    ;
    assert(size * 0 == 0);
    vstd::arithmetic::div_mod::lemma_div_multiples_vanish(k, 1_000_000);
    vstd::arithmetic::div_mod::lemma_div_multiples_vanish(-k, 1_000_000);
}

/// A wall in camera space is the unit cube's wall composed with the box's
/// transform: its point is the image of the cube's point, its normal the
/// cube's.
pub proof fn lemma_wall_is_carried(playbox: Playbox, side: Side)
    requires
        playbox.wf(),
    ensures
        playbox@.image(unit_wall(side).position) == Some(playbox.wall(side).position),
        playbox.wall(side).normal == unit_wall(side).normal,
        playbox.wall(side).side == side,
{
    lemma_half_of_even(playbox@.scale.x as int);
    lemma_half_of_even(playbox@.scale.y as int);
    lemma_half_of_even(playbox@.scale.z as int);
}

/// The walls close a prism: on each axis the two faces stand in order, and
/// every normal points from its wall towards the opposite one.
pub proof fn lemma_walls_close_a_prism(playbox: Playbox)
    requires
        playbox.wf(),
    ensures
        playbox.left() <= playbox.right(),
        playbox.bottom() <= playbox.top(),
        playbox.far() <= playbox.near(),
        playbox.right() - playbox.left() == playbox@.scale.x,
        playbox.top() - playbox.bottom() == playbox@.scale.y,
        playbox.near() - playbox.far() == playbox@.scale.z,
        playbox.wall(Side::Right).normal.x < 0 < playbox.wall(Side::Left).normal.x,
        playbox.wall(Side::Ceiling).normal.y < 0 < playbox.wall(Side::Floor).normal.y,
        playbox.wall(Side::Back).normal.z < 0 < playbox.wall(Side::Front).normal.z,
{
}

/// After a resize that applied, the walls stand exactly on the frustum's
/// cross-section at the reference depth, rounded outwards: the right wall at
/// the least step not left of the frustum's edge, the left wall opposite, the
/// ceiling and the floor likewise, the near face at the reference depth and
/// the far face as deep again. No wall is inside the visible area, and none
/// is a whole step outside it.
pub proof fn lemma_synchronized_walls_enclose_view(
    before: Playbox,
    after: Playbox,
    tangent: u32,
    window: WindowSize,
)
    requires
        corner_at(tangent, window, REFERENCE_DEPTH) is Some,
        after@ == synchronized(
            before@,
            Projection::Perspective { half_fov_tangent: tangent },
            window,
        ),
    ensures
        after.wf(),
        after.right() == half_width(tangent, window, REFERENCE_DEPTH),
        after.left() == -half_width(tangent, window, REFERENCE_DEPTH),
        after.top() == half_height(tangent, REFERENCE_DEPTH),
        after.bottom() == -half_height(tangent, REFERENCE_DEPTH),
        after.near() == -REFERENCE_DEPTH,
        after.far() == -2 * REFERENCE_DEPTH,
        after.right() * (UNIT * window.height) >= REFERENCE_DEPTH * tangent * window.width,
        after.top() * UNIT >= REFERENCE_DEPTH * tangent,
        REFERENCE_DEPTH * tangent * window.width > 0 ==> (after.right() - 1) * (UNIT
            * window.height) < REFERENCE_DEPTH * tangent * window.width,
        REFERENCE_DEPTH * tangent > 0 ==> (after.top() - 1) * UNIT < REFERENCE_DEPTH * tangent,
{
    lemma_half_height_small(tangent, REFERENCE_DEPTH);
    lemma_corner_encloses_frustum(tangent, window, REFERENCE_DEPTH);
}

/// After a resize that applied, the box holds every point that the camera
/// sees at the reference depth: nothing visible there is outside the walls.
pub proof fn lemma_box_holds_the_view(
    before: Playbox,
    after: Playbox,
    tangent: u32,
    window: WindowSize,
    p: Vector3,
)
    requires
        corner_at(tangent, window, REFERENCE_DEPTH) is Some,
        after@ == synchronized(
            before@,
            Projection::Perspective { half_fov_tangent: tangent },
            window,
        ),
        in_view(tangent, window, REFERENCE_DEPTH, p),
    ensures
        after.holds(p),
{
    lemma_synchronized_walls_enclose_view(before, after, tangent, window);
    let right = after.right();
    let top = after.top();
    let per_row = UNIT * window.height;
    let x = magnitude(p.x as int);
    let y = magnitude(p.y as int);
    assert(x <= right) by (nonlinear_arith)
        requires
            x * per_row <= right * per_row,
            per_row > 0,
    ;
    assert(y <= top) by (nonlinear_arith)
        requires
            y * UNIT <= top * UNIT,
    ;
}

/// After a resize that applied, the walls are not inside the picture: every
/// point of the near face that keeps a step away from the side walls, the
/// ceiling and the floor is seen by the camera.
pub proof fn lemma_view_holds_the_near_face(
    before: Playbox,
    after: Playbox,
    tangent: u32,
    window: WindowSize,
    p: Vector3,
)
    requires
        corner_at(tangent, window, REFERENCE_DEPTH) is Some,
        after@ == synchronized(
            before@,
            Projection::Perspective { half_fov_tangent: tangent },
            window,
        ),
        p.z == after.near(),
        after.left() < p.x < after.right(),
        after.bottom() < p.y < after.top(),
    ensures
        in_view(tangent, window, REFERENCE_DEPTH, p),
{
    lemma_synchronized_walls_enclose_view(before, after, tangent, window);
    let right = after.right();
    let top = after.top();
    let per_row = UNIT * window.height;
    let x = magnitude(p.x as int);
    let y = magnitude(p.y as int);
    assert(REFERENCE_DEPTH * tangent * window.width >= 0) by (nonlinear_arith)
        requires
            tangent >= 0,
            window.width >= 0,
    ;
    // The box has an inside, so the frustum is not a mere line.
    lemma_ceil_div_bounds(
        (REFERENCE_DEPTH * tangent * window.width) as nat,
        (UNIT * window.height) as nat,
    );
    lemma_ceil_div_bounds((REFERENCE_DEPTH * tangent) as nat, UNIT as nat);
    assert(x * per_row <= (right - 1) * per_row) by (nonlinear_arith)
        requires
            x <= right - 1,
            per_row > 0,
    ;
    assert(y * UNIT <= (top - 1) * UNIT) by (nonlinear_arith)
        requires
            y <= top - 1,
    ;
}

/// The centre of a well-formed box, where its own origin lies, is within its
/// walls.
pub proof fn lemma_box_holds_its_centre(playbox: Playbox)
    requires
        playbox.wf(),
    ensures
        playbox.holds(playbox@.translation),
{
}

/// Under a perspective projection up to the widest field of view, a resize
/// to any window that shows anything applies.
pub proof fn lemma_every_resize_applies(tangent: u32, window: WindowSize)
    requires
        window.visible(),
        tangent <= WIDEST_HALF_FOV_TANGENT,
    ensures
        sync_result(Projection::Perspective { half_fov_tangent: tangent }, window) == Ok::<
            SyncOutcome,
            ConfigError,
        >(SyncOutcome::Applied),
{
    assert(REFERENCE_DEPTH * tangent == (2 * tangent) * UNIT) by (nonlinear_arith);
    assert((2 * tangent - 1) * UNIT < (2 * tangent) * UNIT) by (nonlinear_arith);
    lemma_ceil_div_unique((REFERENCE_DEPTH * tangent) as nat, UNIT as nat, 2 * tangent);
    lemma_every_window_has_a_corner(tangent, window, REFERENCE_DEPTH);
}

/// A resize to the same window gives the same transform again, and the box
/// before does not enter into it where the resize applied.
pub proof fn lemma_synchronize_is_idempotent(
    before: Transform,
    other: Transform,
    projection: Projection,
    window: WindowSize,
)
    ensures
        synchronized(synchronized(before, projection, window), projection, window)
            == synchronized(before, projection, window),
        sync_result(projection, window) == Ok::<SyncOutcome, ConfigError>(SyncOutcome::Applied)
            ==> synchronized(before, projection, window) == synchronized(
            other,
            projection,
            window,
        ),
{
}

} // verus!
