use pinball_scene::math::Vec3i;
use pinball_scene::scene::build_scene;
use pinball_scene::scene::BodyKind;
use pinball_scene::scene::EntityKind;
use pinball_scene::scene::Shape;
use pinball_scene::scene::BALL_IX;
use pinball_scene::scene::BUMPER_IX;
use pinball_scene::scene::CAMERA_IX;
use pinball_scene::scene::FLOOR_IX;
use pinball_scene::scene::GATE_ANCHOR_IX;
use pinball_scene::scene::GATE_IX;

#[test]
fn one_entity_of_each_kind() {
    let s = build_scene();
    assert_eq!(s.entities.len(), 6);
    assert_eq!(s.count_of_kind(EntityKind::Camera), 1);
    assert_eq!(s.count_of_kind(EntityKind::Floor), 1);
    assert_eq!(s.count_of_kind(EntityKind::GateAnchor), 1);
    assert_eq!(s.count_of_kind(EntityKind::Gate), 1);
    assert_eq!(s.count_of_kind(EntityKind::Bumper), 1);
    assert_eq!(s.count_of_kind(EntityKind::Ball), 1);
}

#[test]
fn entities_stand_at_their_indices() {
    let s = build_scene();
    assert_eq!(s.index_of_kind(EntityKind::Camera), Some(CAMERA_IX));
    assert_eq!(s.index_of_kind(EntityKind::Floor), Some(FLOOR_IX));
    assert_eq!(s.index_of_kind(EntityKind::GateAnchor), Some(GATE_ANCHOR_IX));
    assert_eq!(s.index_of_kind(EntityKind::Gate), Some(GATE_IX));
    assert_eq!(s.index_of_kind(EntityKind::Bumper), Some(BUMPER_IX));
    assert_eq!(s.index_of_kind(EntityKind::Ball), Some(BALL_IX));
}

#[test]
fn gravity_points_down_the_z_axis() {
    let s = build_scene();
    assert_eq!(s.gravity, Vec3i::new(0, 0, -100000));
}

#[test]
fn gate_anchor_and_bumper_are_children_of_floor() {
    let s = build_scene();
    assert_eq!(s.entities[GATE_IX].parent, Some(FLOOR_IX));
    assert_eq!(s.entities[GATE_ANCHOR_IX].parent, Some(FLOOR_IX));
    assert_eq!(s.entities[BUMPER_IX].parent, Some(FLOOR_IX));
    assert_eq!(s.entities[CAMERA_IX].parent, None);
    assert_eq!(s.entities[FLOOR_IX].parent, None);
    assert_eq!(s.entities[BALL_IX].parent, None);
}

#[test]
fn gate_anchor_has_no_collider() {
    let s = build_scene();
    let anchor = s.entities[GATE_ANCHOR_IX];
    assert_eq!(anchor.collider, None);
    assert_eq!(anchor.body, Some(BodyKind::Fixed));
    assert_eq!(anchor.translation, Vec3i::new(10000, -43000, 9000));
}

#[test]
fn camera_looks_at_the_playfield() {
    let s = build_scene();
    let camera = s.entities[CAMERA_IX];
    assert_eq!(camera.translation, Vec3i::new(10000, -90000, 30000));
    assert_eq!(camera.body, None);
    assert_eq!(camera.collider, None);
    let view = camera.view.expect("the camera must have a view");
    assert_eq!(view.target, Vec3i::new(10000, -35000, 0));
    assert_eq!(view.up, Vec3i::new(0, 0, 1));
}

#[test]
fn floor_is_a_tilted_fixed_box() {
    let s = build_scene();
    let floor = s.entities[FLOOR_IX];
    assert_eq!(floor.body, Some(BodyKind::Fixed));
    assert_eq!(floor.collider, Some(Shape::Cuboid { hx: 40000, hy: 70000, hz: 1000 }));
    assert_eq!(floor.translation, Vec3i::new(0, 0, -5000));
    assert_eq!(floor.tilt_x_microrad, 100000);
}

#[test]
fn gate_is_a_thin_dynamic_box() {
    let s = build_scene();
    let gate = s.entities[GATE_IX];
    assert_eq!(gate.body, Some(BodyKind::Dynamic));
    assert_eq!(gate.collider, Some(Shape::Cuboid { hx: 3000, hy: 300, hz: 4000 }));
    assert_eq!(gate.translation, Vec3i::new(10000, -43000, 5000));
    assert!(gate.sleep_disabled);
    assert!(gate.ccd_enabled);
    assert_eq!(gate.impulse, None);
}

#[test]
fn bumper_is_a_fixed_box() {
    let s = build_scene();
    let bumper = s.entities[BUMPER_IX];
    assert_eq!(bumper.body, Some(BodyKind::Fixed));
    assert_eq!(bumper.collider, Some(Shape::Cuboid { hx: 3000, hy: 1000, hz: 2000 }));
    assert_eq!(bumper.translation, Vec3i::new(14000, -10000, 1000));
}

#[test]
fn ball_gets_its_upward_impulse() {
    let s = build_scene();
    let ball = s.entities[BALL_IX];
    assert_eq!(ball.body, Some(BodyKind::Dynamic));
    assert_eq!(ball.collider, Some(Shape::Ball { radius: 1500 }));
    assert_eq!(ball.translation, Vec3i::new(13000, -50000, 1000));
    assert_eq!(ball.impulse, Some(Vec3i::new(0, 3, 0)));
    assert!(ball.sleep_disabled);
    assert!(ball.ccd_enabled);
}

#[test]
fn joint_hinges_gate_to_anchor() {
    let s = build_scene();
    let j = s.joint;
    assert_eq!(j.parent, GATE_ANCHOR_IX);
    assert_eq!(j.child, GATE_IX);
    assert_eq!(j.axis, Vec3i::new(1, 0, 0));
    assert_eq!(j.anchor_on_parent, Vec3i::new(0, 0, 0));
    assert_eq!(j.anchor_on_child, Vec3i::new(-3000, 0, 4000));
    assert_eq!(j.limits.lo.num, 0);
    assert_eq!(j.limits.lo.den, 1);
    assert_eq!(j.limits.hi.num, 1);
    assert_eq!(j.limits.hi.den, 2);
}
