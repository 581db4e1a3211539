use crispy::render::packer::COUNT_OFFSET;
use crispy::render::packer::SCENE_RECORD_BYTES;
use crispy::render::packer::SPHERE_ARRAY_OFFSET;
use crispy::render::ray_trace_render::workgroup_count;
use crispy::render::ray_trace_render::PassKind;
use crispy::render::ray_trace_render::RayTraceRender;
use crispy::render::ray_trace_render::FULLSCREEN_VERTEX_COUNT;
use crispy::world::camera::Camera;
use crispy::world::scene::Scene;
use crispy::world::sphere::Sphere;
use crispy::world::vec3::Vec3;

fn v(x: f32, y: f32, z: f32) -> Vec3 {
    Vec3::new(x.to_bits(), y.to_bits(), z.to_bits())
}

#[test]
fn new_keeps_initial_size() {
    let r = RayTraceRender::new(640, 480);
    assert_eq!(r.current_size(), (640, 480));
}

#[test]
fn resize_twice_same_dims_is_idempotent() {
    let mut r = RayTraceRender::new(640, 480);
    r.resize(800, 600);
    let once = r.current_size();
    r.resize(800, 600);
    assert_eq!(r.current_size(), once);
    assert_eq!(once, (800, 600));
}

#[test]
fn degenerate_resize_is_a_no_op() {
    let mut r = RayTraceRender::new(640, 480);
    r.resize(0, 600);
    assert_eq!(r.current_size(), (640, 480));
    r.resize(800, 0);
    assert_eq!(r.current_size(), (640, 480));
    r.resize(0, 0);
    assert_eq!(r.current_size(), (640, 480));
}

#[test]
fn update_changes_nothing() {
    let mut r = RayTraceRender::new(320, 200);
    r.update();
    assert_eq!(r.current_size(), (320, 200));
}

#[test]
fn workgroups_cover_every_pixel() {
    assert_eq!(workgroup_count(0), 0);
    assert_eq!(workgroup_count(1), 1);
    assert_eq!(workgroup_count(8), 1);
    assert_eq!(workgroup_count(9), 2);
    assert_eq!(workgroup_count(640), 80);
    assert_eq!(workgroup_count(641), 81);
}

#[test]
fn plan_frame_for_center_sphere_scene() {
    // Camera at the origin looking along -Z with the standard right/up
    // basis, one sphere at the origin with radius 5, rendered at 4x4.
    let camera = Camera::new(
        v(0.0, 0.0, 0.0),
        v(0.0, 0.0, -1.0),
        v(1.0, 0.0, 0.0),
        v(0.0, 1.0, 0.0),
    );
    let scene = Scene::new(camera, vec![Sphere::new(v(0.0, 0.0, 0.0), 5.0f32.to_bits())]);
    let r = RayTraceRender::new(4, 4);
    let plan = r.plan_frame(&scene);
    assert_eq!(plan.scene_bytes.len(), SCENE_RECORD_BYTES);
    assert_eq!(plan.dropped_spheres, 0);
    // One 8x8 workgroup covers the whole 4x4 grid.
    assert_eq!((plan.workgroups_x, plan.workgroups_y), (1, 1));
    assert_eq!(plan.fullscreen_vertices, FULLSCREEN_VERTEX_COUNT);
    // The record carries the count and the sphere the kernel will see.
    assert_eq!(
        &plan.scene_bytes[COUNT_OFFSET..COUNT_OFFSET + 4],
        1.0f32.to_bits().to_le_bytes()
    );
    assert_eq!(
        &plan.scene_bytes[SPHERE_ARRAY_OFFSET + 12..SPHERE_ARRAY_OFFSET + 16],
        5.0f32.to_bits().to_le_bytes()
    );
}

#[test]
fn plan_frame_records_ray_trace_before_composite() {
    let camera = Camera::new(
        v(0.0, 0.0, 0.0),
        v(0.0, 0.0, -1.0),
        v(1.0, 0.0, 0.0),
        v(0.0, 1.0, 0.0),
    );
    let scene = Scene::new(camera, Vec::new());
    let r = RayTraceRender::new(1920, 1080);
    let plan = r.plan_frame(&scene);
    assert_eq!(plan.passes, vec![PassKind::RayTrace, PassKind::Composite]);
}
