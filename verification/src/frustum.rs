//! The frustum geometry solver: the corner of a perspective camera's visible
//! cross-section at a given depth.
//!
//! The field of view is vertical. The vertical half-extent at depth `d` is
//! `d * tan(fov / 2)`; the horizontal half-extent is that times the window's
//! aspect ratio, width over height. Both are rounded up to the next millionth,
//! so a box sized by them never ends inside the visible area.

use vstd::prelude::*;
use crate::units::{
    ceil_div, div_ceil, lemma_ceil_div_above, lemma_ceil_div_at_most, lemma_ceil_div_bounds,
    lemma_ceil_div_unique, Vector3, UNIT,
};

verus! {

/// The largest half-extent the solver reports: twice as much still fits a
/// coordinate.
pub const MAX_EXTENT: i64 = 0x3FFF_FFFF_FFFF_FFFF;

/// A window's size in pixels.
#[derive(Clone, Copy, Debug, PartialEq, Eq, Structural)]
pub struct WindowSize {
    pub width: u32,
    pub height: u32,
}

/// What a camera's projection tells the playbox.
#[derive(Clone, Copy, Debug, PartialEq, Eq, Structural)]
pub enum Projection {
    /// A perspective projection, given by the tangent of half its vertical
    /// field of view, in millionths.
    Perspective { half_fov_tangent: u32 },
    /// An orthographic projection, which has no frustum to fit a box to.
    Orthographic,
}

impl WindowSize {
    /// Whether the window shows anything: neither side is zero.
    pub open spec fn visible(self) -> bool {
        self.width > 0 && self.height > 0
    }
}

/// The vertical half-extent of the frustum at `depth`: `depth * tangent`,
/// rounded up.
pub open spec fn half_height(tangent: u32, depth: u32) -> nat {
    ceil_div((depth * tangent) as nat, UNIT as nat)
}

/// The horizontal half-extent of the frustum at `depth`:
/// `depth * tangent * width / height`, rounded up once.
pub open spec fn half_width(tangent: u32, window: WindowSize, depth: u32) -> nat {
    ceil_div((depth * tangent * window.width) as nat, (UNIT * window.height) as nat)
}

/// The top-right corner of the frustum's cross-section at `depth`: how far
/// the view reaches to the right and upwards there, and in `z` the depth
/// itself; `None` for a window with a zero side and for a horizontal extent
/// beyond `MAX_EXTENT`.
pub open spec fn corner_at(tangent: u32, window: WindowSize, depth: u32) -> Option<Vector3> {
    if window.visible() && half_width(tangent, window, depth) <= MAX_EXTENT {
        Some(
            Vector3 {
                x: half_width(tangent, window, depth) as i64,
                y: half_height(tangent, depth) as i64,
                z: depth as i64,
            },
        )
    } else {
        None
    }
}

/// How far `v` is from zero.
pub open spec fn magnitude(v: int) -> int {
    if v < 0 {
        -v
    } else {
        v
    }
}

/// Whether the camera sees the point `p` of camera space on the plane at
/// `depth` in front of it: whether `p` lies on that plane and within the
/// frustum's cross-section there, its edge included. The camera looks down
/// the negative `z` axis, so the plane is the one at `z = -depth`.
pub open spec fn in_view(tangent: u32, window: WindowSize, depth: u32, p: Vector3) -> bool {
    &&& p.z == -depth
    &&& magnitude(p.x as int) * (UNIT * window.height) <= depth * tangent * window.width
    &&& magnitude(p.y as int) * UNIT <= depth * tangent
}

/// The vertical half-extent is below 2^45, whatever the inputs.
pub proof fn lemma_half_height_small(tangent: u32, depth: u32)
    ensures
        half_height(tangent, depth) <= 0x1_0000_0000_0000,
{
    let area = (depth * tangent) as nat;
    assert(depth * tangent <= 0xFFFF_FFFF * 0xFFFF_FFFF) by (nonlinear_arith)
        requires
            0 <= depth <= 0xFFFF_FFFF,
            0 <= tangent <= 0xFFFF_FFFF,
    ;
    lemma_ceil_div_bounds(area, UNIT as nat);
    let q = half_height(tangent, depth) as int;
    if q > 0x1_0000_0000_0000 {
        assert((q - 1) * 1_000_000 >= 0x1_0000_0000_0000 * 1_000_000) by (nonlinear_arith)
            requires
                q - 1 >= 0x1_0000_0000_0000,
        ;
    }
}

/// Solves for the top-right corner of the frustum's cross-section at `depth`.
pub fn frustum_corner(tangent: u32, window: WindowSize, depth: u32) -> (corner: Option<Vector3>)
    ensures
        corner == corner_at(tangent, window, depth),
{
    if window.width == 0 || window.height == 0 {
        return None;
    }
    assert(depth * tangent <= 0xFFFF_FFFF * 0xFFFF_FFFF) by (nonlinear_arith)
        requires
            0 <= depth <= 0xFFFF_FFFF,
            0 <= tangent <= 0xFFFF_FFFF,
    ;
    let area: u128 = depth as u128 * tangent as u128;
    assert(area * window.width <= 0xFFFF_FFFF * 0xFFFF_FFFF * 0xFFFF_FFFF) by (nonlinear_arith)
        requires
            0 <= area <= 0xFFFF_FFFF * 0xFFFF_FFFF,
            0 <= window.width <= 0xFFFF_FFFF,
    ;
    let across: u128 = area * window.width as u128;
    let per_row: u128 = UNIT as u128 * window.height as u128;
    let up = div_ceil(area, UNIT as u128);
    let right = div_ceil(across, per_row);
    proof {
        lemma_half_height_small(tangent, depth);
    }
    if right > MAX_EXTENT as u128 {
        None
    } else {
        Some(Vector3 { x: right as i64, y: up as i64, z: depth as i64 })
    }
}

/// The solved corner is never inside the visible area and less than one
/// millionth outside it: its `x` is the least whole number of millionths that
/// is not below `depth * tangent * width / height`, its `y` the least that is
/// not below `depth * tangent`.
pub proof fn lemma_corner_encloses_frustum(tangent: u32, window: WindowSize, depth: u32)
    requires
        window.visible(),
    ensures
        half_width(tangent, window, depth) * (UNIT * window.height) >= depth * tangent
            * window.width,
        half_height(tangent, depth) * UNIT >= depth * tangent,
        depth * tangent * window.width > 0 ==> (half_width(tangent, window, depth) - 1) * (UNIT
            * window.height) < depth * tangent * window.width,
        depth * tangent > 0 ==> (half_height(tangent, depth) - 1) * UNIT < depth * tangent,
{
    assert(depth * tangent * window.width >= 0) by (nonlinear_arith)
        requires
            depth >= 0,
            tangent >= 0,
            window.width >= 0,
    ;
    lemma_ceil_div_bounds(
        (depth * tangent * window.width) as nat,
        (UNIT * window.height) as nat,
    );
    lemma_ceil_div_bounds((depth * tangent) as nat, UNIT as nat);
}

/// Every window that shows anything has a corner at a depth where the
/// frustum is no higher than 2^30 steps: however wide the window, the corner
/// stays within `MAX_EXTENT`.
pub proof fn lemma_every_window_has_a_corner(tangent: u32, window: WindowSize, depth: u32)
    requires
        window.visible(),
        half_height(tangent, depth) <= 0x4000_0000,
    ensures
        corner_at(tangent, window, depth) is Some,
{
    let area = depth * tangent;
    let up = half_height(tangent, depth) as int;
    let reach = up * window.width;
    assert(area >= 0) by (nonlinear_arith)
        requires
            area == depth * tangent,
            depth >= 0,
            tangent >= 0,
    ;
    lemma_ceil_div_bounds(area as nat, UNIT as nat);
    assert(0 <= reach <= 0x4000_0000 * 0xFFFF_FFFF) by (nonlinear_arith)
        requires
            reach == up * window.width,
            0 <= up <= 0x4000_0000,
            0 <= window.width <= 0xFFFF_FFFF,
    ;
    assert(reach * (UNIT * window.height) >= area * window.width && area * window.width >= 0)
        by (nonlinear_arith)
        requires
            reach == up * window.width,
            up * UNIT >= area,
            area >= 0,
            window.height >= 1,
            window.width >= 0,
    ;
    lemma_ceil_div_at_most((area * window.width) as nat, (UNIT * window.height) as nat, reach);
}

/// The fit is vertical: the vertical half-extent does not depend on the
/// window, and a window of twice the aspect ratio has twice the horizontal
/// half-extent, up to the one step that rounding up can save. Where the
/// narrower window's extent needed no rounding, the factor is exact.
pub proof fn lemma_doubled_aspect_doubles_width(
    tangent: u32,
    narrow: WindowSize,
    wide: WindowSize,
    depth: u32,
)
    requires
        narrow.visible(),
        wide.visible(),
        wide.width * narrow.height == 2 * narrow.width * wide.height,
    ensures
        half_width(tangent, wide, depth) <= 2 * half_width(tangent, narrow, depth),
        half_width(tangent, wide, depth) >= 2 * half_width(tangent, narrow, depth) - 1,
        (depth * tangent * narrow.width) % (UNIT * narrow.height) == 0 ==> half_width(
            tangent,
            wide,
            depth,
        ) == 2 * half_width(tangent, narrow, depth),
        corner_at(tangent, narrow, depth) matches Some(slim) ==> corner_at(tangent, wide, depth)
            matches Some(broad) ==> {
            &&& broad.y == slim.y
            &&& broad.z == slim.z
            &&& 2 * slim.x - 1 <= broad.x <= 2 * slim.x
        },
{
    let area = depth * tangent;
    let an = area * narrow.width;
    let bn = UNIT * narrow.height;
    let aw = area * wide.width;
    let bw = UNIT * wide.height;
    let cn = half_width(tangent, narrow, depth) as int;
    assert(area >= 0) by (nonlinear_arith)
        requires
            area == depth * tangent,
            depth >= 0,
            tangent >= 0,
    ;
    assert(an >= 0 && aw >= 0) by (nonlinear_arith)
        requires
            an == area * narrow.width,
            aw == area * wide.width,
            area >= 0,
            narrow.width >= 0,
            wide.width >= 0,
    ;
    assert(aw * bn == 2 * an * bw) by (nonlinear_arith)
        requires
            an == area * narrow.width,
            aw == area * wide.width,
            bn == UNIT * narrow.height,
            bw == UNIT * wide.height,
            wide.width * narrow.height == 2 * narrow.width * wide.height,
    ;
    lemma_ceil_div_bounds(an as nat, bn as nat);
    // At most twice: 2 * cn widths of the wide window already reach its extent.
    assert((2 * cn) * bw >= aw) by (nonlinear_arith)
        requires
            cn * bn >= an,
            aw * bn == 2 * an * bw,
            bn > 0,
            bw > 0,
    ;
    lemma_ceil_div_at_most(aw as nat, bw as nat, 2 * cn);
    // At least twice less one.
    if an > 0 {
        assert((2 * cn - 2) * bw < aw) by (nonlinear_arith)
            requires
                (cn - 1) * bn < an,
                aw * bn == 2 * an * bw,
                bn > 0,
                bw > 0,
        ;
        lemma_ceil_div_above(aw as nat, bw as nat, 2 * cn - 2);
    }
    // Exactly twice where the narrow extent is a whole number of steps.
    if an % bn == 0 {
        vstd::arithmetic::div_mod::lemma_fundamental_div_mod(an, bn);
        let k = an / bn;
        assert(bn * k == k * bn) by (nonlinear_arith);
        assert((k - 1) * bn == k * bn - bn) by (nonlinear_arith);
        lemma_ceil_div_unique(an as nat, bn as nat, k);
        assert(aw == (2 * k) * bw) by (nonlinear_arith)
            requires
                an == k * bn,
                aw * bn == 2 * an * bw,
                bn > 0,
        ;
        assert((2 * k - 1) * bw == (2 * k) * bw - bw) by (nonlinear_arith);
        lemma_ceil_div_unique(aw as nat, bw as nat, 2 * k);
    }
}

} // verus!
