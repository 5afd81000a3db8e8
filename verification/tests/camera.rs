use pocket_dimension::fixed::Vec3Fx;
use pocket_dimension::game::camera::Camera;
use pocket_dimension::game::camera::GroundDir;
use pocket_dimension::game::camera::PITCH_LIMIT_MILLIDEG;

#[test]
fn new_camera_is_at_the_origin_looking_down_negative_z() {
    let c = Camera::new();
    assert_eq!(c.position, Vec3Fx { x: 0, y: 0, z: 0 });
    assert_eq!(c.yaw_millideg, -90_000);
    assert_eq!(c.pitch_millideg, 0);
    assert_eq!(c.movement_speed, 4_000);
}

#[test]
fn pitch_is_clamped_to_89_degrees() {
    let mut c = Camera::new();
    c.rotate_pitch(1_000_000);
    assert_eq!(c.pitch_millideg, PITCH_LIMIT_MILLIDEG);
    c.rotate_pitch(-3_000_000);
    assert_eq!(c.pitch_millideg, -PITCH_LIMIT_MILLIDEG);
    c.rotate_pitch(10_000);
    assert_eq!(c.pitch_millideg, -79_000);
}

#[test]
fn pitch_stays_in_range_after_any_rotation_sequence() {
    let mut c = Camera::new();
    let deltas: [i64; 12] = [
        500_000, -1_500, 88_000, -200_000, 3, -3, 179_000, -179_000, 89_000, 89_000, -1, 42,
    ];
    for d in deltas {
        c.rotate_pitch(d);
        assert!(-PITCH_LIMIT_MILLIDEG <= c.pitch_millideg);
        assert!(c.pitch_millideg <= PITCH_LIMIT_MILLIDEG);
        let degrees = c.pitch_millideg as f32 / 1000.0;
        assert!((-89.0..=89.0).contains(&degrees));
    }
}

#[test]
fn front_vector_derived_from_yaw_and_pitch_has_unit_length() {
    let mut c = Camera::new();
    c.rotate_yaw(37_123);
    c.rotate_pitch(-52_700);
    // The basis the embedding derives from the stored orientation:
    // front = (cos yaw cos pitch, sin pitch, sin yaw cos pitch).
    let yaw = (c.yaw_millideg as f32 / 1000.0).to_radians();
    let pitch = (c.pitch_millideg as f32 / 1000.0).to_radians();
    let front = (yaw.cos() * pitch.cos(), pitch.sin(), yaw.sin() * pitch.cos());
    let magnitude = (front.0 * front.0 + front.1 * front.1 + front.2 * front.2).sqrt();
    assert!((magnitude - 1.0).abs() < 1e-5);
}

#[test]
fn walking_never_changes_world_y() {
    let mut c = Camera::new();
    c.position = Vec3Fx { x: 10_000, y: 7_500, z: -3_000 };
    c.rotate_pitch(88_000);

    // A ground direction for a steeply pitched camera: still horizontal.
    let dir = GroundDir { x: 707, z: -707 };
    c.move_main_axis(true, dir);
    assert_eq!(c.position.y, 7_500);
    c.move_main_axis(false, dir);
    assert_eq!(c.position.y, 7_500);
    c.move_cross_axis(true, dir);
    assert_eq!(c.position.y, 7_500);
    c.move_cross_axis(false, dir);
    assert_eq!(c.position.y, 7_500);
}

#[test]
fn forward_movement_scales_the_direction_by_the_speed() {
    let mut c = Camera::new();
    let dir = GroundDir { x: 1000, z: 0 };
    c.move_main_axis(true, dir);
    assert_eq!(c.position, Vec3Fx { x: 4_000, y: 0, z: 0 });
    c.move_main_axis(false, dir);
    assert_eq!(c.position, Vec3Fx { x: 0, y: 0, z: 0 });
}

#[test]
fn strafing_uses_the_cross_of_direction_and_world_up() {
    let mut c = Camera::new();
    // Facing +x on the ground: right is (-0, 0, +x) x world up = +z.
    let dir = GroundDir { x: 1000, z: 0 };
    c.move_cross_axis(true, dir);
    assert_eq!(c.position, Vec3Fx { x: 0, y: 0, z: 4_000 });
    c.move_cross_axis(false, dir);
    assert_eq!(c.position, Vec3Fx { x: 0, y: 0, z: 0 });
}

#[test]
fn yaw_accumulates_without_clamping() {
    let mut c = Camera::new();
    c.rotate_yaw(400_000);
    assert_eq!(c.yaw_millideg, 310_000);
    c.rotate_yaw(-720_000);
    assert_eq!(c.yaw_millideg, -410_000);
}

#[test]
fn view_parameters_mirror_the_camera_state() {
    let mut c = Camera::new();
    c.position = Vec3Fx { x: 1, y: 2, z: 3 };
    c.rotate_yaw(5_000);
    c.rotate_pitch(-6_000);
    let v = c.get_view_matrix();
    assert_eq!(v.position, c.position);
    assert_eq!(v.yaw_millideg, c.yaw_millideg);
    assert_eq!(v.pitch_millideg, c.pitch_millideg);
}
