use dicebox::error::ConfigError;
use dicebox::frustum::{Projection, WindowSize};
use dicebox::playbox::{unit_wall_on, Playbox, Side, SyncOutcome, Wall, HALF, REFERENCE_DEPTH};
use dicebox::transform::Transform;
use dicebox::units::{Vector3, UNIT};

const CAMERA: Projection = Projection::Perspective { half_fov_tangent: 1_000_000 };

fn v(x: i64, y: i64, z: i64) -> Vector3 {
    Vector3 { x, y, z }
}

#[test]
fn new_playbox_is_the_unit_cube() {
    let playbox = Playbox::new();
    assert_eq!(
        playbox.transform(),
        Transform { translation: v(0, 0, 0), scale: v(UNIT, UNIT, UNIT) }
    );
    let walls = playbox.walls();
    let sides =
        [Side::Ceiling, Side::Floor, Side::Right, Side::Left, Side::Back, Side::Front];
    assert_eq!(walls.len(), 6);
    for (wall, side) in walls.iter().zip(sides) {
        assert_eq!(*wall, unit_wall_on(side));
    }
}

#[test]
fn unit_walls_stand_half_a_unit_out_and_face_inwards() {
    assert_eq!(
        unit_wall_on(Side::Ceiling),
        Wall { side: Side::Ceiling, position: v(0, HALF, 0), normal: v(0, -UNIT, 0) }
    );
    assert_eq!(
        unit_wall_on(Side::Floor),
        Wall { side: Side::Floor, position: v(0, -HALF, 0), normal: v(0, UNIT, 0) }
    );
    assert_eq!(
        unit_wall_on(Side::Right),
        Wall { side: Side::Right, position: v(HALF, 0, 0), normal: v(-UNIT, 0, 0) }
    );
    assert_eq!(
        unit_wall_on(Side::Left),
        Wall { side: Side::Left, position: v(-HALF, 0, 0), normal: v(UNIT, 0, 0) }
    );
    assert_eq!(
        unit_wall_on(Side::Back),
        Wall { side: Side::Back, position: v(0, 0, HALF), normal: v(0, 0, -UNIT) }
    );
    assert_eq!(
        unit_wall_on(Side::Front),
        Wall { side: Side::Front, position: v(0, 0, -HALF), normal: v(0, 0, UNIT) }
    );
}

#[test]
fn synchronize_fits_the_box_to_the_window() {
    let mut playbox = Playbox::new();
    let outcome = playbox.synchronize(CAMERA, WindowSize { width: 800, height: 600 });
    assert_eq!(outcome, Ok(SyncOutcome::Applied));
    assert_eq!(
        playbox.transform(),
        Transform { translation: v(0, 0, -3_000_000), scale: v(5_333_334, 4_000_000, 2_000_000) }
    );
}

#[test]
fn synchronized_walls_stand_on_the_frustum() {
    let mut playbox = Playbox::new();
    playbox.synchronize(CAMERA, WindowSize { width: 800, height: 600 }).unwrap();
    let walls = playbox.walls();
    assert_eq!(walls[0].position, v(0, 2_000_000, -3_000_000));
    assert_eq!(walls[1].position, v(0, -2_000_000, -3_000_000));
    assert_eq!(walls[2].position, v(2_666_667, 0, -3_000_000));
    assert_eq!(walls[3].position, v(-2_666_667, 0, -3_000_000));
    assert_eq!(walls[4].position, v(0, 0, -(REFERENCE_DEPTH as i64)));
    assert_eq!(walls[5].position, v(0, 0, -2 * REFERENCE_DEPTH as i64));
    assert_eq!(playbox.wall_on(Side::Right), walls[2]);
    // No wall is inside the visible area: the frustum's edge is at 8/3 units.
    assert!(walls[2].position.x as i128 * 3 >= 8 * UNIT as i128);
    assert!((walls[2].position.x as i128 - 1) * 3 < 8 * UNIT as i128);
    for wall in walls {
        assert_eq!(wall.normal, unit_wall_on(wall.side).normal);
    }
}

#[test]
fn each_wall_is_found_by_its_side() {
    let mut playbox = Playbox::new();
    playbox.synchronize(CAMERA, WindowSize { width: 1920, height: 1080 }).unwrap();
    let walls = playbox.walls();
    let sides =
        [Side::Ceiling, Side::Floor, Side::Right, Side::Left, Side::Back, Side::Front];
    for (wall, side) in walls.iter().zip(sides) {
        assert_eq!(wall.side, side);
        assert_eq!(playbox.wall_on(side), *wall);
    }
    assert_eq!(playbox.wall_on(Side::Left).position, v(-3_555_556, 0, -3_000_000));
    assert_eq!(playbox.wall_on(Side::Front).position, v(0, 0, -4_000_000));
}

#[test]
fn walls_enclose_the_frustum_for_many_windows() {
    for width in [1u32, 2, 3, 640, 800, 1366, 1920, 3840, 65_535, u32::MAX] {
        for height in [1u32, 2, 3, 480, 600, 768, 1080, 2160, 65_535, u32::MAX] {
            for tangent in [0u32, 1, 414_214, 1_000_000, 2_414_214] {
                let projection = Projection::Perspective { half_fov_tangent: tangent };
                let mut playbox = Playbox::new();
                let outcome = playbox.synchronize(projection, WindowSize { width, height });
                assert_eq!(outcome, Ok(SyncOutcome::Applied));
                let walls = playbox.walls();
                let across = REFERENCE_DEPTH as i128 * tangent as i128 * width as i128;
                let per_row = UNIT as i128 * height as i128;
                let up = REFERENCE_DEPTH as i128 * tangent as i128;
                let right = walls[2].position.x as i128;
                let top = walls[0].position.y as i128;
                assert!(right * per_row >= across && (right - 1) * per_row < across);
                assert!(top * (UNIT as i128) >= up && (top - 1) * (UNIT as i128) < up);
                assert_eq!(walls[3].position.x as i128, -right);
                assert_eq!(walls[1].position.y as i128, -top);
                assert_eq!(walls[4].position.z, -(REFERENCE_DEPTH as i64));
            }
        }
    }
}

#[test]
fn synchronize_twice_gives_the_same_transform() {
    let window = WindowSize { width: 1920, height: 1080 };
    let mut playbox = Playbox::new();
    assert_eq!(playbox.synchronize(CAMERA, window), Ok(SyncOutcome::Applied));
    let first = playbox.transform();
    assert_eq!(playbox.synchronize(CAMERA, window), Ok(SyncOutcome::Applied));
    assert_eq!(playbox.transform(), first);
    let mut other = Playbox::new();
    other.synchronize(CAMERA, WindowSize { width: 10, height: 10 }).unwrap();
    other.synchronize(CAMERA, window).unwrap();
    assert_eq!(other.transform(), first);
}

#[test]
fn orthographic_projection_is_a_configuration_error() {
    let mut playbox = Playbox::new();
    let before = playbox.transform();
    let outcome = playbox.synchronize(Projection::Orthographic, WindowSize { width: 800, height: 600 });
    assert_eq!(outcome, Err(ConfigError::NotPerspective));
    assert_eq!(playbox.transform(), before);
}

#[test]
fn window_without_size_leaves_the_box_alone() {
    let mut playbox = Playbox::new();
    playbox.synchronize(CAMERA, WindowSize { width: 800, height: 600 }).unwrap();
    let before = playbox.transform();
    assert_eq!(
        playbox.synchronize(CAMERA, WindowSize { width: 0, height: 600 }),
        Ok(SyncOutcome::Skipped)
    );
    assert_eq!(
        playbox.synchronize(CAMERA, WindowSize { width: 800, height: 0 }),
        Ok(SyncOutcome::Skipped)
    );
    assert_eq!(playbox.transform(), before);
}

#[test]
fn widest_field_of_view_fits_every_window() {
    let widest = Projection::Perspective { half_fov_tangent: 1 << 29 };
    let mut playbox = Playbox::new();
    let outcome = playbox.synchronize(widest, WindowSize { width: u32::MAX, height: 1 });
    assert_eq!(outcome, Ok(SyncOutcome::Applied));
    assert_eq!(playbox.transform().scale.x, 2 * ((1i64 << 62) - (1i64 << 30)));
    let wider = Projection::Perspective { half_fov_tangent: (1 << 29) + 1 };
    let outcome = playbox.synchronize(wider, WindowSize { width: u32::MAX, height: 1 });
    assert_eq!(outcome, Ok(SyncOutcome::Skipped));
}

#[test]
fn box_beyond_the_coordinate_range_is_skipped() {
    let mut playbox = Playbox::new();
    let projection = Projection::Perspective { half_fov_tangent: u32::MAX };
    let outcome = playbox.synchronize(projection, WindowSize { width: u32::MAX, height: 1 });
    assert_eq!(outcome, Ok(SyncOutcome::Skipped));
    assert_eq!(playbox.transform(), Playbox::new().transform());
}

#[test]
fn only_the_last_resize_of_a_frame_counts() {
    let mut playbox = Playbox::new();
    let resizes = vec![
        WindowSize { width: 800, height: 600 },
        WindowSize { width: 0, height: 0 },
        WindowSize { width: 1920, height: 1080 },
    ];
    assert_eq!(playbox.on_resize(CAMERA, &resizes), Ok(SyncOutcome::Applied));
    let mut direct = Playbox::new();
    direct.synchronize(CAMERA, WindowSize { width: 1920, height: 1080 }).unwrap();
    assert_eq!(playbox.transform(), direct.transform());
    assert_eq!(playbox.transform().scale, v(7_111_112, 4_000_000, 2_000_000));
}

#[test]
fn frame_without_resize_is_idle() {
    let mut playbox = Playbox::new();
    assert_eq!(playbox.on_resize(CAMERA, &Vec::new()), Ok(SyncOutcome::Idle));
    assert_eq!(playbox.on_resize(Projection::Orthographic, &Vec::new()), Ok(SyncOutcome::Idle));
    assert_eq!(playbox.transform(), Playbox::new().transform());
}

#[test]
fn resize_under_an_orthographic_projection_fails() {
    let mut playbox = Playbox::new();
    let resizes = vec![WindowSize { width: 800, height: 600 }];
    assert_eq!(
        playbox.on_resize(Projection::Orthographic, &resizes),
        Err(ConfigError::NotPerspective)
    );
}
