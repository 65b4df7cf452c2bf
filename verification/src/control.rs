//! The force driver: what the keyboard or the device's motion sensor asks of
//! the camera rig in one tick.

use vstd::prelude::*;
use crate::units::{Vector2, Vector3};

verus! {

/// Which of the four direction keys are held.
#[derive(Clone, Copy, Debug, PartialEq, Eq, Structural)]
pub struct Keys {
    pub left: bool,
    pub right: bool,
    pub up: bool,
    pub down: bool,
}

/// The direction along one axis: the key towards positive less the key
/// towards negative.
pub open spec fn axis(positive: bool, negative: bool) -> int {
    (if positive { 1int } else { 0int }) - (if negative { 1int } else { 0int })
}

/// A length laid along a direction: with it, against it, or not at all.
pub open spec fn directed(direction: int, length: int) -> int {
    if direction > 0 {
        length
    } else if direction < 0 {
        -length
    } else {
        0
    }
}

/// Whether `share` is what each axis gets of a diagonal force of the given
/// magnitude: the largest whole number with `share^2 + share^2 <= magnitude^2`.
pub open spec fn is_diagonal_share(magnitude: int, share: int) -> bool {
    &&& 0 <= share
    &&& 2 * (share * share) <= magnitude * magnitude
    &&& magnitude * magnitude < 2 * ((share + 1) * (share + 1))
}

/// What each axis gets of a diagonal force: `magnitude / sqrt(2)`, rounded
/// down.
pub open spec fn diagonal_share(magnitude: u32) -> int {
    choose|share: int| is_diagonal_share(magnitude as int, share)
}

/// The force the held keys ask for: along `x`, right less left; along `y`,
/// down less up; of length `magnitude`, or zero where nothing is asked.
pub open spec fn keyboard_force_of(keys: Keys, magnitude: u32) -> Vector2 {
    let dx = axis(keys.right, keys.left);
    let dy = axis(keys.down, keys.up);
    if dx != 0 && dy != 0 {
        Vector2 {
            x: directed(dx, diagonal_share(magnitude)) as i64,
            y: directed(dy, diagonal_share(magnitude)) as i64,
        }
    } else {
        Vector2 {
            x: directed(dx, magnitude as int) as i64,
            y: directed(dy, magnitude as int) as i64,
        }
    }
}

/// Squares grow with their roots.
proof fn lemma_square_grows(a: int, b: int)
    requires
        0 <= a <= b,
    ensures
        a * a <= b * b,
{
    assert(a * a <= b * b) by (nonlinear_arith)
        requires
            0 <= a <= b,
    ;
}

/// At most one number is the diagonal share of a magnitude.
pub proof fn lemma_diagonal_share_unique(magnitude: int, a: int, b: int)
    requires
        is_diagonal_share(magnitude, a),
        is_diagonal_share(magnitude, b),
    ensures
        a == b,
{
    if a < b {
        lemma_square_grows(a + 1, b);
    } else if b < a {
        lemma_square_grows(b + 1, a);
    }
}

/// Computes `magnitude / sqrt(2)`, rounded down.
pub fn diagonal(magnitude: u32) -> (share: u32)
    ensures
        is_diagonal_share(magnitude as int, share as int),
        share == diagonal_share(magnitude),
        share <= magnitude,
{
    assert(magnitude * magnitude <= 0xFFFF_FFFF * 0xFFFF_FFFF) by (nonlinear_arith)
        requires
            0 <= magnitude <= 0xFFFF_FFFF,
    ;
    let target: u128 = magnitude as u128 * magnitude as u128;
    let mut low: u128 = 0;
    let mut high: u128 = magnitude as u128 + 1;
    proof {
        assert(magnitude * magnitude < 2 * ((magnitude + 1) * (magnitude + 1)))
            by (nonlinear_arith)
            requires
                magnitude >= 0,
        ;
    }
    while high - low > 1
        invariant
            target == magnitude * magnitude,
            0 <= low < high <= magnitude + 1,
            2 * (low * low) <= target,
            target < 2 * (high * high),
        decreases high - low,
    {
        let middle = low + (high - low) / 2;
        proof {
            lemma_square_grows(middle as int, magnitude as int + 1);
            assert((magnitude + 1) * (magnitude + 1) <= 0x1_0000_0000 * 0x1_0000_0000)
                by (nonlinear_arith)
                requires
                    0 <= magnitude <= 0xFFFF_FFFF,
            ;
        }
        if 2 * (middle * middle) <= target {
            low = middle;
        } else {
            high = middle;
        }
    }
    proof {
        assert(is_diagonal_share(magnitude as int, low as int));
        lemma_diagonal_share_unique(magnitude as int, low as int, diagonal_share(magnitude));
    }
    low as u32
}

/// The force to apply to the rig for the held keys, of the given magnitude.
pub fn keyboard_force(keys: Keys, magnitude: u32) -> (force: Vector2)
    ensures
        force == keyboard_force_of(keys, magnitude),
{
    let dx: i64 = (if keys.right { 1i64 } else { 0i64 }) - (if keys.left { 1i64 } else { 0i64 });
    let dy: i64 = (if keys.down { 1i64 } else { 0i64 }) - (if keys.up { 1i64 } else { 0i64 });
    let reach: i64 = if dx != 0 && dy != 0 {
        diagonal(magnitude) as i64
    } else {
        magnitude as i64
    };
    assert(dx * reach == directed(dx as int, reach as int)) by (nonlinear_arith)
        requires
            -1 <= dx <= 1,
    ;
    assert(dy * reach == directed(dy as int, reach as int)) by (nonlinear_arith)
        requires
            -1 <= dy <= 1,
    ;
    Vector2 { x: dx * reach, y: dy * reach }
}

/// Pressing only one key gives the whole magnitude along that key's axis and
/// nothing across it; right is positive `x`, down is positive `y`.
pub proof fn lemma_single_key_force(keys: Keys, magnitude: u32)
    ensures
        keys.right && !keys.left && !keys.up && !keys.down ==> keyboard_force_of(keys, magnitude)
            == (Vector2 { x: magnitude as i64, y: 0 }),
        keys.left && !keys.right && !keys.up && !keys.down ==> keyboard_force_of(keys, magnitude)
            == (Vector2 { x: (-magnitude) as i64, y: 0 }),
        keys.down && !keys.up && !keys.left && !keys.right ==> keyboard_force_of(keys, magnitude)
            == (Vector2 { x: 0, y: magnitude as i64 }),
        keys.up && !keys.down && !keys.left && !keys.right ==> keyboard_force_of(keys, magnitude)
            == (Vector2 { x: 0, y: (-magnitude) as i64 }),
{
}

/// Opposite keys held together cancel along their axis; with no key held, or
/// with both pairs held, the force is zero.
pub proof fn lemma_opposite_keys_cancel(keys: Keys, magnitude: u32)
    ensures
        keys.left == keys.right ==> keyboard_force_of(keys, magnitude).x == 0,
        keys.up == keys.down ==> keyboard_force_of(keys, magnitude).y == 0,
        keys.left == keys.right && keys.up == keys.down ==> keyboard_force_of(keys, magnitude)
            == (Vector2 { x: 0, y: 0 }),
{
}

/// Some number is the diagonal share of every magnitude.
pub proof fn lemma_diagonal_share_exists(magnitude: u32)
    ensures
        is_diagonal_share(magnitude as int, diagonal_share(magnitude)),
        0 <= diagonal_share(magnitude) <= magnitude,
    decreases magnitude,
{
    let m = magnitude as int;
    if magnitude == 0 {
        assert(is_diagonal_share(0, 0));
    } else {
        // The share grows by zero or one with the magnitude.
        lemma_diagonal_share_exists((magnitude - 1) as u32);
        let c = diagonal_share((magnitude - 1) as u32);
        assert((m - 1) * (m - 1) <= m * m) by (nonlinear_arith)
            requires
                m >= 1,
        ;
        if m * m < 2 * ((c + 1) * (c + 1)) {
            assert(is_diagonal_share(m, c));
        } else {
            assert(m * m < 2 * ((c + 2) * (c + 2))) by (nonlinear_arith)
                requires
                    (m - 1) * (m - 1) < 2 * ((c + 1) * (c + 1)),
                    0 <= c,
                    m >= 1,
            ;
            assert(is_diagonal_share(m, c + 1));
        }
    }
    let share = diagonal_share(magnitude);
    if share > m {
        lemma_square_grows(m + 1, share);
        assert(m * m < (m + 1) * (m + 1)) by (nonlinear_arith)
            requires
                m >= 0,
        ;
        assert(share * share >= 0) by (nonlinear_arith);
    }
}

/// The force is never longer than the magnitude: `x^2 + y^2 <= magnitude^2`.
pub proof fn lemma_force_within_magnitude(keys: Keys, magnitude: u32)
    ensures
        ({
            let force = keyboard_force_of(keys, magnitude);
            force.x * force.x + force.y * force.y <= magnitude * magnitude
        }),
{
    lemma_diagonal_share_exists(magnitude);
    let dx = axis(keys.right, keys.left);
    let dy = axis(keys.down, keys.up);
    let share = diagonal_share(magnitude);
    let m = magnitude as int;
    let force = keyboard_force_of(keys, magnitude);
    assert((-share) * (-share) == share * share) by (nonlinear_arith);
    assert((-m) * (-m) == m * m) by (nonlinear_arith);
    assert(m * m >= 0) by (nonlinear_arith);
    let x = force.x as int;
    let y = force.y as int;
    if dx != 0 && dy != 0 {
        assert(x == share || x == -share);
        assert(y == share || y == -share);
        assert(x * x == share * share);
        assert(y * y == share * share);
    } else if dx != 0 {
        assert(x == m || x == -m);
        assert(y == 0);
        assert(x * x == m * m);
        assert(y * y == 0);
    } else {
        assert(x == 0);
        assert(y == m || y == -m || y == 0);
        assert(x * x == 0);
        assert(y * y == m * m || y * y == 0);
    }
}

/// One axis of a motion sensor's reading, in millionths of a metre per second
/// squared; the sensor may leave any axis out.
#[derive(Clone, Copy, Debug, PartialEq, Eq, Structural)]
pub struct Reading {
    pub x: Option<i32>,
    pub y: Option<i32>,
    pub z: Option<i32>,
}

/// What the device's motion sensor reports in one tick.
#[derive(Clone, Copy, Debug, PartialEq, Eq, Structural)]
pub struct MotionSample {
    /// The device's acceleration without gravity.
    pub acceleration: Option<Reading>,
    /// The device's acceleration with gravity.
    pub acceleration_including_gravity: Option<Reading>,
}

/// What a motion sample asks of the physics world.
#[derive(Clone, Copy, Debug, PartialEq, Eq, Structural)]
pub struct MotionResponse {
    /// The new global gravity, which replaces the old one; `None` leaves
    /// gravity as it is.
    pub gravity: Option<Vector3>,
    /// A force to add to what the rig has accumulated for this step; `None`
    /// adds nothing.
    pub force: Option<Vector3>,
}

/// How much force one step of acceleration is worth.
pub const MOTION_FORCE_SCALE: i64 = 5;

/// An axis that the sensor left out reads zero.
pub open spec fn or_zero(axis: Option<i32>) -> int {
    match axis {
        Some(value) => value as int,
        None => 0,
    }
}

/// The gravity that a sample tells of: the acceleration with gravity less the
/// acceleration without, axis by axis. Without both readings there is none.
pub open spec fn gravity_of(sample: MotionSample) -> Option<Vector3> {
    match (sample.acceleration, sample.acceleration_including_gravity) {
        (Some(without), Some(with)) => Some(
            Vector3 {
                x: (or_zero(with.x) - or_zero(without.x)) as i64,
                y: (or_zero(with.y) - or_zero(without.y)) as i64,
                z: (or_zero(with.z) - or_zero(without.z)) as i64,
            },
        ),
        _ => None,
    }
}

/// The force that a sample pushes the rig with: the acceleration without
/// gravity, scaled. Without that reading there is none.
pub open spec fn force_of(sample: MotionSample) -> Option<Vector3> {
    match sample.acceleration {
        Some(without) => Some(
            Vector3 {
                x: (or_zero(without.x) * MOTION_FORCE_SCALE) as i64,
                y: (or_zero(without.y) * MOTION_FORCE_SCALE) as i64,
                z: (or_zero(without.z) * MOTION_FORCE_SCALE) as i64,
            },
        ),
        None => None,
    }
}

/// Reads one axis, zero where the sensor left it out.
fn axis_or_zero(axis: Option<i32>) -> (value: i64)
    ensures
        value == or_zero(axis),
{
    match axis {
        Some(value) => value as i64,
        None => 0,
    }
}

/// Turns one tick's motion sample into the gravity to set and the force to
/// apply.
pub fn motion_response(sample: MotionSample) -> (response: MotionResponse)
    ensures
        response.gravity == gravity_of(sample),
        response.force == force_of(sample),
{
    match sample.acceleration {
        None => MotionResponse { gravity: None, force: None },
        Some(without) => {
            let ax = axis_or_zero(without.x);
            let ay = axis_or_zero(without.y);
            let az = axis_or_zero(without.z);
            let gravity = match sample.acceleration_including_gravity {
                None => None,
                Some(with) => Some(
                    Vector3 {
                        x: axis_or_zero(with.x) - ax,
                        y: axis_or_zero(with.y) - ay,
                        z: axis_or_zero(with.z) - az,
                    },
                ),
            };
            let force = Vector3 {
                x: ax * MOTION_FORCE_SCALE,
                y: ay * MOTION_FORCE_SCALE,
                z: az * MOTION_FORCE_SCALE,
            };
            MotionResponse { gravity, force: Some(force) }
        },
    }
}

/// Whether every axis of a reading is zero or left out.
pub open spec fn at_rest(reading: Reading) -> bool {
    or_zero(reading.x) == 0 && or_zero(reading.y) == 0 && or_zero(reading.z) == 0
}

/// A device at rest pushes nothing and pulls nothing: where both readings are
/// zero on every axis, left-out axes included, the force and the gravity are
/// both zero.
pub proof fn lemma_rest_gives_zero(sample: MotionSample)
    requires
        sample.acceleration matches Some(without) && at_rest(without),
        sample.acceleration_including_gravity matches Some(with) && at_rest(with),
    ensures
        force_of(sample) == Some(Vector3::zero()),
        gravity_of(sample) == Some(Vector3::zero()),
{
}

/// The gravity set is what has to be added to the acceleration without
/// gravity to get the acceleration with it.
pub proof fn lemma_gravity_is_the_difference(sample: MotionSample)
    requires
        sample.acceleration is Some,
        sample.acceleration_including_gravity is Some,
    ensures
        ({
            let without = sample.acceleration->0;
            let with = sample.acceleration_including_gravity->0;
            let gravity = gravity_of(sample)->0;
            &&& gravity_of(sample) is Some
            &&& or_zero(without.x) + gravity.x == or_zero(with.x)
            &&& or_zero(without.y) + gravity.y == or_zero(with.y)
            &&& or_zero(without.z) + gravity.z == or_zero(with.z)
        }),
{
}

} // verus!
