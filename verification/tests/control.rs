use dicebox::control::{
    diagonal, keyboard_force, motion_response, Keys, MotionResponse, MotionSample, Reading,
    MOTION_FORCE_SCALE,
};
use dicebox::units::{Vector2, Vector3};

const FORCE: u32 = 10_000_000;

fn keys(left: bool, right: bool, up: bool, down: bool) -> Keys {
    Keys { left, right, up, down }
}

fn reading(x: Option<i32>, y: Option<i32>, z: Option<i32>) -> Reading {
    Reading { x, y, z }
}

#[test]
fn right_alone_pushes_along_positive_x() {
    assert_eq!(
        keyboard_force(keys(false, true, false, false), FORCE),
        Vector2 { x: 10_000_000, y: 0 }
    );
}

#[test]
fn each_key_alone_pushes_along_its_axis() {
    assert_eq!(
        keyboard_force(keys(true, false, false, false), FORCE),
        Vector2 { x: -10_000_000, y: 0 }
    );
    assert_eq!(
        keyboard_force(keys(false, false, true, false), FORCE),
        Vector2 { x: 0, y: -10_000_000 }
    );
    assert_eq!(
        keyboard_force(keys(false, false, false, true), FORCE),
        Vector2 { x: 0, y: 10_000_000 }
    );
}

#[test]
fn opposite_keys_cancel() {
    assert_eq!(keyboard_force(keys(true, true, false, false), FORCE), Vector2 { x: 0, y: 0 });
    assert_eq!(keyboard_force(keys(false, false, true, true), FORCE), Vector2 { x: 0, y: 0 });
    assert_eq!(keyboard_force(keys(true, true, true, true), FORCE), Vector2 { x: 0, y: 0 });
    assert_eq!(
        keyboard_force(keys(true, true, false, true), FORCE),
        Vector2 { x: 0, y: 10_000_000 }
    );
    assert_eq!(
        keyboard_force(keys(true, false, true, true), FORCE),
        Vector2 { x: -10_000_000, y: 0 }
    );
}

#[test]
fn no_key_gives_no_force() {
    assert_eq!(keyboard_force(keys(false, false, false, false), FORCE), Vector2 { x: 0, y: 0 });
}

#[test]
fn diagonal_keys_share_the_magnitude() {
    assert_eq!(
        keyboard_force(keys(false, true, false, true), FORCE),
        Vector2 { x: 7_071_067, y: 7_071_067 }
    );
    assert_eq!(
        keyboard_force(keys(true, false, true, false), FORCE),
        Vector2 { x: -7_071_067, y: -7_071_067 }
    );
    assert_eq!(
        keyboard_force(keys(false, true, true, false), FORCE),
        Vector2 { x: 7_071_067, y: -7_071_067 }
    );
    assert_eq!(
        keyboard_force(keys(true, false, false, true), FORCE),
        Vector2 { x: -7_071_067, y: 7_071_067 }
    );
}

#[test]
fn force_is_never_longer_than_the_magnitude() {
    for magnitude in [0u32, 1, 2, 3, 99, 1_000_000, 10_000_000, u32::MAX] {
        for bits in 0..16u32 {
            let held = keys(bits & 1 != 0, bits & 2 != 0, bits & 4 != 0, bits & 8 != 0);
            let force = keyboard_force(held, magnitude);
            let length = force.x as i128 * force.x as i128 + force.y as i128 * force.y as i128;
            let limit = magnitude as i128 * magnitude as i128;
            assert!(length <= limit);
            if force.x != 0 && force.y != 0 {
                let next = force.x.abs() as i128 + 1;
                assert!(2 * next * next > limit);
            } else if force.x != 0 || force.y != 0 {
                assert_eq!(length, limit);
            }
        }
    }
}

#[test]
fn diagonal_share_is_the_magnitude_over_root_two() {
    assert_eq!(diagonal(0), 0);
    assert_eq!(diagonal(1), 0);
    assert_eq!(diagonal(2), 1);
    assert_eq!(diagonal(3), 2);
    assert_eq!(diagonal(10), 7);
    assert_eq!(diagonal(1_000_000), 707_106);
    assert_eq!(diagonal(u32::MAX), 3_037_000_499);
}

#[test]
fn zero_key_force_magnitude_gives_zero() {
    for bits in 0..16u32 {
        let held = keys(bits & 1 != 0, bits & 2 != 0, bits & 4 != 0, bits & 8 != 0);
        assert_eq!(keyboard_force(held, 0), Vector2 { x: 0, y: 0 });
    }
}

#[test]
fn device_at_rest_gives_zero_force_and_zero_gravity() {
    let zero = Some(Vector3 { x: 0, y: 0, z: 0 });
    let rests = [
        reading(Some(0), Some(0), Some(0)),
        reading(None, None, None),
        reading(Some(0), None, Some(0)),
        reading(None, Some(0), None),
    ];
    for without in rests {
        for with in rests {
            let sample = MotionSample {
                acceleration: Some(without),
                acceleration_including_gravity: Some(with),
            };
            assert_eq!(motion_response(sample), MotionResponse { gravity: zero, force: zero });
        }
    }
}

#[test]
fn gravity_is_the_difference_of_the_two_readings() {
    let sample = MotionSample {
        acceleration: Some(reading(Some(100_000), Some(-200_000), Some(300_000))),
        acceleration_including_gravity: Some(reading(
            Some(150_000),
            Some(9_610_000),
            Some(300_000),
        )),
    };
    assert_eq!(MOTION_FORCE_SCALE, 5);
    assert_eq!(
        motion_response(sample),
        MotionResponse {
            gravity: Some(Vector3 { x: 50_000, y: 9_810_000, z: 0 }),
            force: Some(Vector3 { x: 500_000, y: -1_000_000, z: 1_500_000 }),
        }
    );
}

#[test]
fn missing_axes_read_zero() {
    let sample = MotionSample {
        acceleration: Some(reading(None, Some(1_000_000), None)),
        acceleration_including_gravity: Some(reading(Some(2_000_000), None, None)),
    };
    assert_eq!(
        motion_response(sample),
        MotionResponse {
            gravity: Some(Vector3 { x: 2_000_000, y: -1_000_000, z: 0 }),
            force: Some(Vector3 { x: 0, y: 5_000_000, z: 0 }),
        }
    );
}

#[test]
fn missing_reading_with_gravity_leaves_gravity_alone() {
    let sample = MotionSample {
        acceleration: Some(reading(Some(1), Some(2), Some(3))),
        acceleration_including_gravity: None,
    };
    assert_eq!(
        motion_response(sample),
        MotionResponse { gravity: None, force: Some(Vector3 { x: 5, y: 10, z: 15 }) }
    );
}

#[test]
fn missing_acceleration_does_nothing() {
    let sample = MotionSample {
        acceleration: None,
        acceleration_including_gravity: Some(reading(Some(1), Some(2), Some(3))),
    };
    assert_eq!(motion_response(sample), MotionResponse { gravity: None, force: None });
    let nothing = MotionSample { acceleration: None, acceleration_including_gravity: None };
    assert_eq!(motion_response(nothing), MotionResponse { gravity: None, force: None });
}

#[test]
fn extreme_readings_do_not_overflow() {
    let sample = MotionSample {
        acceleration: Some(reading(Some(i32::MIN), Some(i32::MAX), Some(i32::MIN))),
        acceleration_including_gravity: Some(reading(
            Some(i32::MAX),
            Some(i32::MIN),
            Some(i32::MIN),
        )),
    };
    assert_eq!(
        motion_response(sample),
        MotionResponse {
            gravity: Some(Vector3 { x: 4_294_967_295, y: -4_294_967_295, z: 0 }),
            force: Some(Vector3 {
                x: -10_737_418_240,
                y: 10_737_418_235,
                z: -10_737_418_240
            }),
        }
    );
}
