use vstd::prelude::*;
use crate::math::{Vec3i, PiFrac, JointLimits};

verus! {

/// How a physics engine treats a body: a `Fixed` body has infinite mass and
/// never moves; a `Dynamic` body is subject to forces, gravity and impulses.
#[derive(Clone, Copy, Debug, PartialEq, Eq, Structural)]
pub enum BodyKind {
    Fixed,
    Dynamic,
}

/// A collider shape. A cuboid is given by its half-extents, a ball by its
/// radius, both in fixed-point units.
#[derive(Clone, Copy, Debug, PartialEq, Eq, Structural)]
pub enum Shape {
    Cuboid { hx: i64, hy: i64, hz: i64 },
    Ball { radius: i64 },
}

/// The role an entity plays in the scene. The scene holds exactly one entity
/// of each kind.
#[derive(Clone, Copy, Debug, PartialEq, Eq, Structural)]
pub enum EntityKind {
    Camera,
    Floor,
    GateAnchor,
    Gate,
    Bumper,
    Ball,
}

/// What the camera looks at and which axis is up, both as vectors; the
/// camera's own position is its entity's translation.
#[derive(Clone, Copy, Debug, PartialEq, Eq, Structural)]
pub struct CameraView {
    pub target: Vec3i,
    pub up: Vec3i,
}

/// One entity of the scene: its role, physics body, collider, transform and
/// flags. Translations are fixed-point units; the transform's only rotation
/// is a tilt about the x axis, held in microradians.
#[derive(Clone, Copy, Debug, PartialEq, Eq)]
pub struct Entity {
    pub kind: EntityKind,
    pub body: Option<BodyKind>,
    pub collider: Option<Shape>,
    pub translation: Vec3i,
    pub tilt_x_microrad: i64,
    pub sleep_disabled: bool,
    pub ccd_enabled: bool,
    pub impulse: Option<Vec3i>,
    pub view: Option<CameraView>,
    /// Index of the parent entity in [`Scene::entities`], for spatial
    /// hierarchy only; physics constraints are joints, not parent links.
    pub parent: Option<usize>,
}

/// A revolute joint: one rotational degree of freedom about `axis`, limited
/// to `limits`, attaching entity `child` to entity `parent` at the two local
/// anchor points.
#[derive(Clone, Copy, Debug, PartialEq, Eq)]
pub struct RevoluteJoint {
    pub axis: Vec3i,
    pub limits: JointLimits,
    pub anchor_on_parent: Vec3i,
    pub anchor_on_child: Vec3i,
    pub parent: usize,
    pub child: usize,
}

/// The whole scene: global gravity, the list of entities, and the single
/// revolute joint that hinges the flap onto its anchor.
pub struct Scene {
    pub gravity: Vec3i,
    pub entities: Vec<Entity>,
    pub joint: RevoluteJoint,
}

/// Index of each entity in [`Scene::entities`].
pub const CAMERA_IX: usize = 0;

pub const FLOOR_IX: usize = 1;

pub const GATE_ANCHOR_IX: usize = 2;

pub const GATE_IX: usize = 3;

pub const BUMPER_IX: usize = 4;

pub const BALL_IX: usize = 5;

/// How many of the first `n` entities of `s` have kind `k`.
pub open spec fn count_kind_to(s: Seq<Entity>, k: EntityKind, n: int) -> int
    decreases n,
{
    if n <= 0 {
        0
    } else {
        count_kind_to(s, k, n - 1) + if s[n - 1].kind == k {
            1int
        } else {
            0int
        }
    }
}

/// How many entities of `s` have kind `k`.
pub open spec fn count_kind(s: Seq<Entity>, k: EntityKind) -> int {
    count_kind_to(s, k, s.len() as int)
}

/// Exactly one entity of each kind exists.
pub open spec fn one_of_each(s: Seq<Entity>) -> bool {
    &&& count_kind(s, EntityKind::Camera) == 1
    &&& count_kind(s, EntityKind::Floor) == 1
    &&& count_kind(s, EntityKind::GateAnchor) == 1
    &&& count_kind(s, EntityKind::Gate) == 1
    &&& count_kind(s, EntityKind::Bumper) == 1
    &&& count_kind(s, EntityKind::Ball) == 1
}

/// Per-entity invariants, some against the rest of the scene:
/// every dynamic body has sleeping disabled and continuous collision
/// enabled (small fast bodies would otherwise sleep through or tunnel
/// through thin colliders); exactly the camera has a view; the camera has
/// no physics body and no collider; a parent link points at the floor.
pub open spec fn entity_wf(e: Entity, s: Seq<Entity>) -> bool {
    &&& e.body == Some(BodyKind::Dynamic) ==> e.sleep_disabled && e.ccd_enabled
    &&& e.kind is Camera <==> e.view is Some
    &&& e.kind is Camera ==> e.body is None && e.collider is None
    &&& e.parent matches Some(p) ==> p < s.len() && s[p as int].kind is Floor
}

impl Scene {
    /// Well-formedness of a scene: the joint attaches a gate to a gate
    /// anchor through valid indices, its limit range is not empty, and every
    /// entity satisfies its own invariants.
    pub open spec fn wf(self) -> bool {
        &&& self.joint.parent < self.entities@.len()
        &&& self.joint.child < self.entities@.len()
        &&& self.entities@[self.joint.parent as int].kind is GateAnchor
        &&& self.entities@[self.joint.child as int].kind is Gate
        &&& self.joint.limits.wf()
        &&& forall|i: int|
            0 <= i < self.entities@.len() ==> #[trigger] entity_wf(self.entities@[i], self.entities@)
    }

    /// Counts the entities of kind `k`.
    pub fn count_of_kind(&self, k: EntityKind) -> (n: usize)
        ensures
            n == count_kind(self.entities@, k),
    {
        let mut n: usize = 0;
        let mut i: usize = 0;
        while i < self.entities.len()
            invariant
                i <= self.entities@.len(),
                n <= i,
                n == count_kind_to(self.entities@, k, i as int),
            decreases self.entities@.len() - i,
        {
            if self.entities[i].kind == k {
                n = n + 1;
            }
            i = i + 1;
        }
        n
    }

    /// Finds the first entity of kind `k`, if any.
    pub fn index_of_kind(&self, k: EntityKind) -> (r: Option<usize>)
        ensures
            match r {
                Some(i) => i < self.entities@.len() && self.entities@[i as int].kind == k
                    && forall|j: int| 0 <= j < i ==> self.entities@[j].kind != k,
                None => forall|j: int|
                    0 <= j < self.entities@.len() ==> self.entities@[j].kind != k,
            },
    {
        let mut i: usize = 0;
        while i < self.entities.len()
            invariant
                i <= self.entities@.len(),
                forall|j: int| 0 <= j < i ==> self.entities@[j].kind != k,
            decreases self.entities@.len() - i,
        {
            if self.entities[i].kind == k {
                return Some(i);
            }
            i = i + 1;
        }
        None
    }
}

/// The camera: placed at (0.1, -0.9, 0.3), looking at (0.1, -0.35, 0), with
/// z as the up axis.
pub open spec fn camera_entity() -> Entity {
    Entity {
        kind: EntityKind::Camera,
        body: None,
        collider: None,
        translation: Vec3i { x: 10000, y: -90000i64, z: 30000 },
        tilt_x_microrad: 0,
        sleep_disabled: false,
        ccd_enabled: false,
        impulse: None,
        view: Some(
            CameraView {
                target: Vec3i { x: 10000, y: -35000i64, z: 0 },
                up: Vec3i { x: 0, y: 0, z: 1 },
            },
        ),
        parent: None,
    }
}

/// The floor: a fixed box of half-extents (0.4, 0.7, 0.01), lowered by 0.05
/// and tilted by 0.1 radian about the x axis. The translation and the tilt
/// are deliberately composed into one transform here: attaching them as two
/// separate transforms to one entity would leave it to the engine which of
/// the two survives.
pub open spec fn floor_entity() -> Entity {
    Entity {
        kind: EntityKind::Floor,
        body: Some(BodyKind::Fixed),
        collider: Some(Shape::Cuboid { hx: 40000, hy: 70000, hz: 1000 }),
        translation: Vec3i { x: 0, y: 0, z: -5000i64 },
        tilt_x_microrad: 100000,
        sleep_disabled: false,
        ccd_enabled: false,
        impulse: None,
        view: None,
        parent: None,
    }
}

/// Anchor of the hinged flap: a fixed body at (0.1, -0.43, 0.09). It carries no
/// collider; the revolute joint holds onto it. A child of the floor.
pub open spec fn gate_anchor_entity() -> Entity {
    Entity {
        kind: EntityKind::GateAnchor,
        body: Some(BodyKind::Fixed),
        collider: None,
        translation: Vec3i { x: 10000, y: -43000i64, z: 9000 },
        tilt_x_microrad: 0,
        sleep_disabled: false,
        ccd_enabled: false,
        impulse: None,
        view: None,
        parent: Some(FLOOR_IX),
    }
}

/// The hinged flap itself: a thin dynamic box at (0.1, -0.43, 0.05), sleep disabled and
/// continuous collision enabled; a child of the floor. [`gate_joint`]
/// connects it to the anchor.
pub open spec fn gate_entity() -> Entity {
    Entity {
        kind: EntityKind::Gate,
        body: Some(BodyKind::Dynamic),
        collider: Some(Shape::Cuboid { hx: 3000, hy: 300, hz: 4000 }),
        translation: Vec3i { x: 10000, y: -43000i64, z: 5000 },
        tilt_x_microrad: 0,
        sleep_disabled: true,
        ccd_enabled: true,
        impulse: None,
        view: None,
        parent: Some(FLOOR_IX),
    }
}

/// The bumper: a fixed box at (0.14, -0.1, 0.01); a child of the floor.
pub open spec fn bumper_entity() -> Entity {
    Entity {
        kind: EntityKind::Bumper,
        body: Some(BodyKind::Fixed),
        collider: Some(Shape::Cuboid { hx: 3000, hy: 1000, hz: 2000 }),
        translation: Vec3i { x: 14000, y: -10000i64, z: 1000 },
        tilt_x_microrad: 0,
        sleep_disabled: false,
        ccd_enabled: false,
        impulse: None,
        view: None,
        parent: Some(FLOOR_IX),
    }
}

/// The ball: a dynamic sphere of radius 0.015 at (0.13, -0.5, 0.01), given
/// an initial impulse of (0, 0.00003, 0), sleep disabled and continuous
/// collision enabled; a free body with no parent.
pub open spec fn ball_entity() -> Entity {
    Entity {
        kind: EntityKind::Ball,
        body: Some(BodyKind::Dynamic),
        collider: Some(Shape::Ball { radius: 1500 }),
        translation: Vec3i { x: 13000, y: -50000i64, z: 1000 },
        tilt_x_microrad: 0,
        sleep_disabled: true,
        ccd_enabled: true,
        impulse: Some(Vec3i { x: 0, y: 3, z: 0 }),
        view: None,
        parent: None,
    }
}

/// The revolute joint between gate and anchor: a single rotational degree
/// of freedom about the x axis, limited to [0, pi/2]. The range stops at
/// zero, so the flap opens up to a right angle when the ball pushes on its
/// front face, yet stays shut against a push on its back face.
pub open spec fn gate_joint() -> RevoluteJoint {
    RevoluteJoint {
        axis: Vec3i { x: 1, y: 0, z: 0 },
        limits: JointLimits {
            lo: PiFrac { num: 0, den: 1 },
            hi: PiFrac { num: 1, den: 2 },
        },
        anchor_on_parent: Vec3i { x: 0, y: 0, z: 0 },
        anchor_on_child: Vec3i { x: -3000i64, y: 0, z: 4000 },
        parent: GATE_ANCHOR_IX,
        child: GATE_IX,
    }
}

/// Builds the whole scene. The contract pins every value: gravity along
/// negative z, the six entities in a fixed order with one of each kind, the
/// gate, anchor and bumper parented to the floor, the anchor bare of any
/// collider, the joint's exact axis, limits and anchors, and the ball's
/// initial impulse and dynamic-body flags.
pub fn build_scene() -> (s: Scene)
    ensures
        s.wf(),
        s.gravity == (Vec3i { x: 0, y: 0, z: -100000i64 }),
        s.entities@.len() == 6,
        s.entities@[CAMERA_IX as int] == camera_entity(),
        s.entities@[FLOOR_IX as int] == floor_entity(),
        s.entities@[GATE_ANCHOR_IX as int] == gate_anchor_entity(),
        s.entities@[GATE_IX as int] == gate_entity(),
        s.entities@[BUMPER_IX as int] == bumper_entity(),
        s.entities@[BALL_IX as int] == ball_entity(),
        s.joint == gate_joint(),
        one_of_each(s.entities@),
        s.entities@[GATE_IX as int].parent == Some(FLOOR_IX),
        s.entities@[GATE_ANCHOR_IX as int].parent == Some(FLOOR_IX),
        s.entities@[BUMPER_IX as int].parent == Some(FLOOR_IX),
        s.entities@[GATE_ANCHOR_IX as int].collider is None,
        s.joint.axis == (Vec3i { x: 1, y: 0, z: 0 }),
        s.joint.limits.lo == (PiFrac { num: 0, den: 1 }),
        s.joint.limits.hi == (PiFrac { num: 1, den: 2 }),
        s.joint.parent == GATE_ANCHOR_IX && s.joint.child == GATE_IX,
        s.entities@[BALL_IX as int].impulse == (Some(Vec3i { x: 0, y: 3, z: 0 })),
        s.entities@[BALL_IX as int].body == Some(BodyKind::Dynamic),
        s.entities@[BALL_IX as int].sleep_disabled,
        s.entities@[BALL_IX as int].ccd_enabled,
{
    let mut entities: Vec<Entity> = Vec::new();
    entities.push(
        Entity {
            kind: EntityKind::Camera,
            body: None,
            collider: None,
            translation: Vec3i { x: 10000, y: -90000i64, z: 30000 },
            tilt_x_microrad: 0,
            sleep_disabled: false,
            ccd_enabled: false,
            impulse: None,
            view: Some(
                CameraView {
                    target: Vec3i { x: 10000, y: -35000i64, z: 0 },
                    up: Vec3i { x: 0, y: 0, z: 1 },
                },
            ),
            parent: None,
        },
    );
    entities.push(
        Entity {
            kind: EntityKind::Floor,
            body: Some(BodyKind::Fixed),
            collider: Some(Shape::Cuboid { hx: 40000, hy: 70000, hz: 1000 }),
            translation: Vec3i { x: 0, y: 0, z: -5000i64 },
            tilt_x_microrad: 100000,
            sleep_disabled: false,
            ccd_enabled: false,
            impulse: None,
            view: None,
            parent: None,
        },
    );
    entities.push(
        Entity {
            kind: EntityKind::GateAnchor,
            body: Some(BodyKind::Fixed),
            collider: None,
            translation: Vec3i { x: 10000, y: -43000i64, z: 9000 },
            tilt_x_microrad: 0,
            sleep_disabled: false,
            ccd_enabled: false,
            impulse: None,
            view: None,
            parent: Some(FLOOR_IX),
        },
    );
    entities.push(
        Entity {
            kind: EntityKind::Gate,
            body: Some(BodyKind::Dynamic),
            collider: Some(Shape::Cuboid { hx: 3000, hy: 300, hz: 4000 }),
            translation: Vec3i { x: 10000, y: -43000i64, z: 5000 },
            tilt_x_microrad: 0,
            sleep_disabled: true,
            ccd_enabled: true,
            impulse: None,
            view: None,
            parent: Some(FLOOR_IX),
        },
    );
    entities.push(
        Entity {
            kind: EntityKind::Bumper,
            body: Some(BodyKind::Fixed),
            collider: Some(Shape::Cuboid { hx: 3000, hy: 1000, hz: 2000 }),
            translation: Vec3i { x: 14000, y: -10000i64, z: 1000 },
            tilt_x_microrad: 0,
            sleep_disabled: false,
            ccd_enabled: false,
            impulse: None,
            view: None,
            parent: Some(FLOOR_IX),
        },
    );
    entities.push(
        Entity {
            kind: EntityKind::Ball,
            body: Some(BodyKind::Dynamic),
            collider: Some(Shape::Ball { radius: 1500 }),
            translation: Vec3i { x: 13000, y: -50000i64, z: 1000 },
            tilt_x_microrad: 0,
            sleep_disabled: true,
            ccd_enabled: true,
            impulse: Some(Vec3i { x: 0, y: 3, z: 0 }),
            view: None,
            parent: None,
        },
    );
    let joint = RevoluteJoint {
        axis: Vec3i { x: 1, y: 0, z: 0 },
        limits: JointLimits {
            lo: PiFrac { num: 0, den: 1 },
            hi: PiFrac { num: 1, den: 2 },
        },
        anchor_on_parent: Vec3i { x: 0, y: 0, z: 0 },
        anchor_on_child: Vec3i { x: -3000i64, y: 0, z: 4000 },
        parent: GATE_ANCHOR_IX,
        child: GATE_IX,
    };
    let s = Scene { gravity: Vec3i { x: 0, y: 0, z: -100000i64 }, entities, joint };
    proof {
        assert(s.entities@[CAMERA_IX as int] == camera_entity());
        assert(s.entities@[FLOOR_IX as int] == floor_entity());
        assert(s.entities@[GATE_ANCHOR_IX as int] == gate_anchor_entity());
        assert(s.entities@[GATE_IX as int] == gate_entity());
        assert(s.entities@[BUMPER_IX as int] == bumper_entity());
        assert(s.entities@[BALL_IX as int] == ball_entity());
        assert(one_of_each(s.entities@)) by {
            reveal_with_fuel(count_kind_to, 8);
        }
        assert forall|i: int| 0 <= i < s.entities@.len() implies #[trigger] entity_wf(
            s.entities@[i],
            s.entities@,
        ) by {
            assert(s.entities@[FLOOR_IX as int].kind is Floor);
        }
    }
    s
}

} // verus!

