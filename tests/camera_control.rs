use three_d::camera::{Camera, Error, ProjectionType, Viewport};
use three_d::camera_control::CameraControl;
use three_d::math::{Vec3, SCALE};

const S: i64 = SCALE;

fn viewport() -> Viewport {
    Viewport { x: 0, y: 0, width: 800, height: 600 }
}

fn v(x: i64, y: i64, z: i64) -> Vec3 {
    Vec3::new(x, y, z)
}

fn perspective(position: Vec3, target: Vec3, up: Vec3) -> CameraControl {
    let camera =
        Camera::new_perspective(viewport(), position, target, up, 785_398, S / 10, 1000 * S)
            .unwrap();
    CameraControl::new(camera)
}

fn orthographic(position: Vec3, width: i64, height: i64, depth: i64) -> CameraControl {
    let camera = Camera::new_orthographic(
        viewport(),
        position,
        v(0, 0, 0),
        v(0, S, 0),
        width,
        height,
        depth,
    )
    .unwrap();
    CameraControl::new(camera)
}

fn looking_down_z() -> CameraControl {
    perspective(v(0, 0, 5 * S), v(0, 0, 0), v(0, S, 0))
}

fn sub(a: Vec3, b: Vec3) -> Vec3 {
    v(a.x - b.x, a.y - b.y, a.z - b.z)
}

#[test]
fn camera_refuses_target_at_position() {
    let r = Camera::new_perspective(viewport(), v(1, 2, 3), v(1, 2, 3), v(0, S, 0), 1, 1, 2);
    assert_eq!(r.unwrap_err(), Error::DegenerateView);
}

#[test]
fn camera_refuses_view_parallel_to_up() {
    let r = Camera::new_perspective(viewport(), v(0, 5 * S, 0), v(0, 0, 0), v(0, S, 0), 1, 1, 2);
    assert_eq!(r.unwrap_err(), Error::DegenerateView);
}

#[test]
fn camera_refuses_out_of_range_coordinates() {
    let far = 2_000_000_000_000;
    let r = Camera::new_perspective(viewport(), v(far, 0, 0), v(0, 0, 0), v(0, S, 0), 1, 1, 2);
    assert_eq!(r.unwrap_err(), Error::OutOfRange);
}

#[test]
fn camera_refuses_bad_projection() {
    let r = Camera::new_perspective(viewport(), v(0, 0, S), v(0, 0, 0), v(0, S, 0), 1, 5, 2);
    assert_eq!(r.unwrap_err(), Error::InvalidProjection);
    let r = Camera::new_orthographic(viewport(), v(0, 0, S), v(0, 0, 0), v(0, S, 0), 0, 1, 1);
    assert_eq!(r.unwrap_err(), Error::InvalidProjection);
}

#[test]
fn set_view_failure_keeps_state() {
    let mut control = looking_down_z();
    let r = control.camera_mut().set_view(v(0, 0, 0), v(0, 0, 0), v(0, S, 0));
    assert_eq!(r, Err(Error::DegenerateView));
    assert_eq!(control.camera().position(), v(0, 0, 5 * S));
    assert_eq!(control.camera().target(), v(0, 0, 0));
}

#[test]
fn set_viewport_reports_change() {
    let mut control = looking_down_z();
    assert!(!control.camera_mut().set_viewport(viewport()));
    let other = Viewport { x: 0, y: 0, width: 1024, height: 768 };
    assert!(control.camera_mut().set_viewport(other));
    assert_eq!(control.camera().viewport(), other);
}

#[test]
fn view_and_right_directions() {
    let control = looking_down_z();
    assert_eq!(control.camera().view_direction(), v(0, 0, -S));
    assert_eq!(control.camera().right_direction(), Some(v(S, 0, 0)));
}

#[test]
fn translate_moves_position_and_target() {
    let mut control = perspective(v(-3 * S, S, 2 * S), v(S, 0, 0), v(0, S, 0));
    let before = sub(control.camera().target(), control.camera().position());
    control.translate(&v(7, -11 * S, 13)).unwrap();
    assert_eq!(control.camera().position(), v(-3 * S + 7, -10 * S, 2 * S + 13));
    assert_eq!(control.camera().target(), v(S + 7, -11 * S, 13));
    assert_eq!(sub(control.camera().target(), control.camera().position()), before);
    assert_eq!(control.camera().up(), v(0, S, 0));
}

#[test]
fn translate_out_of_range_is_refused() {
    let mut control = looking_down_z();
    let r = control.translate(&v(i64::MAX, 0, 0));
    assert_eq!(r, Err(Error::OutOfRange));
    assert_eq!(control.camera().position(), v(0, 0, 5 * S));
}

#[test]
fn pan_keeps_view_and_up_directions() {
    let mut control = looking_down_z();
    control.pan(S, 2 * S).unwrap();
    assert_eq!(control.camera().position(), v(-S, 2 * S, 5 * S));
    assert_eq!(control.camera().target(), v(-S, 2 * S, 0));
    assert_eq!(control.camera().view_direction(), v(0, 0, -S));
    assert_eq!(control.camera().up(), v(0, S, 0));
}

#[test]
fn zoom_towards_end_to_end() {
    let mut control = perspective(v(-3 * S, S, 2_500_000), v(0, 0, 0), v(0, S, 0));
    let origin = v(0, 0, 0);
    let old = control.camera().position().distance(&origin);
    assert_eq!(old, 4_031_128);
    control.zoom_towards(&origin, S / 2, S / 10, 1000 * S).unwrap();
    let new = control.camera().position().distance(&origin);
    let expected = (1.5f64 * (16.25f64).sqrt() * 1e6) as i64;
    assert!((new - expected).abs() <= 20, "{} vs {}", new, expected);
    assert_eq!(control.camera().target(), origin);
    assert_eq!(control.camera().up(), v(0, S, 0));
}

#[test]
fn zoom_towards_clamps_to_maximum() {
    let mut control = looking_down_z();
    control.zoom_towards(&v(0, 0, 0), 10 * S, 0, 7 * S).unwrap();
    assert_eq!(control.camera().position(), v(0, 0, 7 * S));
}

#[test]
fn zoom_towards_clamps_to_minimum() {
    let mut control = looking_down_z();
    control.zoom_towards(&v(0, 0, 0), -S, 2 * S, 7 * S).unwrap();
    assert_eq!(control.camera().position(), v(0, 0, 2 * S));
}

#[test]
fn zoom_towards_orthographic_keeps_aspect() {
    let mut control = orthographic(v(0, 0, 5 * S), 4 * S, 2 * S, 10 * S);
    control.zoom_towards(&v(0, 0, 0), S / 10, S / 10, 100 * S).unwrap();
    assert_eq!(
        control.camera().projection_type(),
        ProjectionType::Orthographic { width: 3 * S, height: 1_500_000, depth: 10 * S }
    );
    assert_eq!(control.camera().position(), v(0, 0, 5 * S));
}

#[test]
fn rotate_around_keeps_distance() {
    let mut control = looking_down_z();
    let origin = v(0, 0, 0);
    control.rotate_around(&origin, S, 0).unwrap();
    assert_eq!(control.camera().position(), v(-980_580, 0, 4_902_900));
    let d = control.camera().position().distance(&origin);
    assert!((d - 5 * S).abs() <= 10);
    assert_eq!(control.camera().up(), v(0, S, 0));
}

#[test]
fn rotate_around_with_fixed_up_moves_and_keeps_up() {
    let mut control = perspective(v(0, 0, 5 * S), v(0, 0, 0), v(0, 2 * S, 0));
    control.rotate_around_with_fixed_up(&v(0, 0, 0), 0, S / 10).unwrap();
    assert_eq!(control.camera().up(), v(0, 2 * S, 0));
    assert!(control.camera().position().y > 0);
    let d = control.camera().position().distance(&v(0, 0, 0));
    assert!((d - 5 * S).abs() <= 10);
}

#[test]
fn rotate_around_with_fixed_up_near_parallel_is_no_op() {
    let mut control = perspective(v(0, 5 * S, 1), v(0, 0, 0), v(0, S, 0));
    control.rotate_around_with_fixed_up(&v(0, 0, 0), S / 100, 0).unwrap();
    assert_eq!(control.camera().position(), v(0, 5 * S, 1));
    assert_eq!(control.camera().target(), v(0, 0, 0));
    assert_eq!(control.camera().up(), v(0, S, 0));
}

#[test]
fn rotate_around_own_position_is_refused() {
    let mut control = looking_down_z();
    let r = control.rotate_around(&v(0, 0, 5 * S), S, 0);
    assert_eq!(r, Err(Error::DegenerateView));
    assert_eq!(control.camera().position(), v(0, 0, 5 * S));
}
