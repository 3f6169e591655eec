use vstd::prelude::*;

verus! {

use crate::action::PlayerAction;
use crate::fixed::SCALE;
use crate::fixed::lemma_tdiv_bound;
use crate::fixed::tdiv;
use crate::fixed::trunc_div;
use crate::vec3::V3;
use crate::vec3::Vec3;
use crate::vec3::v3_in_range;

/// Largest world coordinate a craft may sit at; far beyond any scene, yet
/// small enough that a pose transform can never leave the machine range.
pub const COORD_LIMIT: i64 = 1_000_000_000_000_000;

/// The fixed local-space offset of each thruster's mount on the craft, in
/// micro-units. Mounts mirror one another across the left/right axis (`x`
/// negated), across front/rear (`z` negated) and across top/bottom (`y`
/// negated).
pub open spec fn mount_model(t: PlayerAction) -> V3 {
    match t {
        PlayerAction::RearRightThruster => V3 { x: 300_000, y: 0, z: 500_000 },
        PlayerAction::RearLeftThruster => V3 { x: -300_000, y: 0, z: 500_000 },
        PlayerAction::FrontRightThruster => V3 { x: 300_000, y: 0, z: -500_000 },
        PlayerAction::FrontLeftThruster => V3 { x: -300_000, y: 0, z: -500_000 },
        PlayerAction::BottomRightThruster => V3 { x: 300_000, y: -1_000_000, z: 500_000 },
        PlayerAction::BottomLeftThruster => V3 { x: -300_000, y: -1_000_000, z: 500_000 },
        PlayerAction::TopRightThruster => V3 { x: 300_000, y: 1_000_000, z: 500_000 },
        PlayerAction::TopLeftThruster => V3 { x: -300_000, y: 1_000_000, z: 500_000 },
    }
}

/// Every mount offset fits within one world unit of the craft's origin.
pub proof fn lemma_mounts_bounded()
    ensures
        forall|t: PlayerAction| v3_in_range(#[trigger] mount_model(t), SCALE as int),
{
}

/// Pair partners mount at mirrored offsets: `x` negated, `y` and `z` kept.
/// This symmetry is what lets a fully held pair push without turning.
pub proof fn lemma_mount_pair_symmetry()
    ensures
        forall|t: PlayerAction|
            mount_model(#[trigger] crate::action::pair_partner(t)).x == -mount_model(t).x,
        forall|t: PlayerAction|
            mount_model(#[trigger] crate::action::pair_partner(t)).y == mount_model(t).y,
        forall|t: PlayerAction|
            mount_model(#[trigger] crate::action::pair_partner(t)).z == mount_model(t).z,
{
}

/// The per-craft table of thruster mounts: one fixed local-space offset per
/// thruster, written once when the craft is spawned and never changed.
#[derive(Clone, Copy, PartialEq, Eq, Structural, Debug)]
pub struct MountTable {
    pub rear_right: Vec3,
    pub rear_left: Vec3,
    pub front_right: Vec3,
    pub front_left: Vec3,
    pub bottom_right: Vec3,
    pub bottom_left: Vec3,
    pub top_right: Vec3,
    pub top_left: Vec3,
}

impl MountTable {
    /// The entry of the table for `t`.
    pub open spec fn entry(self, t: PlayerAction) -> V3 {
        match t {
            PlayerAction::RearRightThruster => self.rear_right@,
            PlayerAction::RearLeftThruster => self.rear_left@,
            PlayerAction::FrontRightThruster => self.front_right@,
            PlayerAction::FrontLeftThruster => self.front_left@,
            PlayerAction::BottomRightThruster => self.bottom_right@,
            PlayerAction::BottomLeftThruster => self.bottom_left@,
            PlayerAction::TopRightThruster => self.top_right@,
            PlayerAction::TopLeftThruster => self.top_left@,
        }
    }

    /// A well-formed table holds exactly the craft's fixed mount offsets.
    pub open spec fn wf(self) -> bool {
        forall|t: PlayerAction| #[trigger] self.entry(t) == mount_model(t)
    }

    /// The table a craft is spawned with.
    pub fn new() -> (m: MountTable)
        ensures
            m.wf(),
    {
        let m = MountTable {
            rear_right: Vec3 { x: 300_000, y: 0, z: 500_000 },
            rear_left: Vec3 { x: -300_000, y: 0, z: 500_000 },
            front_right: Vec3 { x: 300_000, y: 0, z: -500_000 },
            front_left: Vec3 { x: -300_000, y: 0, z: -500_000 },
            bottom_right: Vec3 { x: 300_000, y: -1_000_000, z: 500_000 },
            bottom_left: Vec3 { x: -300_000, y: -1_000_000, z: 500_000 },
            top_right: Vec3 { x: 300_000, y: 1_000_000, z: 500_000 },
            top_left: Vec3 { x: -300_000, y: 1_000_000, z: 500_000 },
        };
        proof {
            assert forall|t: PlayerAction| #[trigger] m.entry(t) == mount_model(t) by {
            }
        }
        m
    }

    /// Look the mount offset of `t` up: a total function over the closed
    /// eight-element domain, with no failure mode.
    pub fn offset(&self, t: PlayerAction) -> (r: Vec3)
        requires
            self.wf(),
        ensures
            r@ == mount_model(t),
    {
        proof {
            assert(self.entry(t) == mount_model(t));
        }
        match t {
            PlayerAction::RearRightThruster => self.rear_right,
            PlayerAction::RearLeftThruster => self.rear_left,
            PlayerAction::FrontRightThruster => self.front_right,
            PlayerAction::FrontLeftThruster => self.front_left,
            PlayerAction::BottomRightThruster => self.bottom_right,
            PlayerAction::BottomLeftThruster => self.bottom_left,
            PlayerAction::TopRightThruster => self.top_right,
            PlayerAction::TopLeftThruster => self.top_left,
        }
    }
}

/// The controllable rigid body: a pose, the two velocities the control law
/// accumulates onto, and the mount table. The pose is written only by the
/// physics integrator outside this crate; the control law reads it.
///
/// The orientation is carried as the three basis vectors of the craft's
/// local frame in world space, each a unit vector in micro-units: `right`,
/// `up`, and `forward` (the direction of travel, the negative local z axis).
#[derive(Clone, Copy, PartialEq, Eq, Structural, Debug)]
pub struct Craft {
    pub position: Vec3,
    pub right: Vec3,
    pub up: Vec3,
    pub forward: Vec3,
    pub linvel: Vec3,
    pub angvel: Vec3,
    pub mounts: MountTable,
}

/// Where the craft's pose carries a local-space point: rotate it into the
/// basis, rescale, and translate by the craft's position. The local z axis
/// points backward, opposite `forward`.
pub open spec fn pose_apply(c: Craft, l: V3) -> V3 {
    V3 {
        x: c.position@.x + tdiv(
            l.x * c.right@.x + l.y * c.up@.x - l.z * c.forward@.x,
            SCALE as int,
        ),
        y: c.position@.y + tdiv(
            l.x * c.right@.y + l.y * c.up@.y - l.z * c.forward@.y,
            SCALE as int,
        ),
        z: c.position@.z + tdiv(
            l.x * c.right@.z + l.y * c.up@.z - l.z * c.forward@.z,
            SCALE as int,
        ),
    }
}

impl Craft {
    /// A well-formed craft: basis vectors no longer than a unit, a position
    /// within the world, and the fixed mount table.
    pub open spec fn wf(self) -> bool {
        &&& v3_in_range(self.position@, COORD_LIMIT as int)
        &&& v3_in_range(self.right@, SCALE as int)
        &&& v3_in_range(self.up@, SCALE as int)
        &&& v3_in_range(self.forward@, SCALE as int)
        &&& self.mounts.wf()
    }

    /// Spawn a craft with the given pose and velocities.
    pub fn new(position: Vec3, right: Vec3, up: Vec3, forward: Vec3, linvel: Vec3, angvel: Vec3)
        -> (c: Craft)
        requires
            v3_in_range(position@, COORD_LIMIT as int),
            v3_in_range(right@, SCALE as int),
            v3_in_range(up@, SCALE as int),
            v3_in_range(forward@, SCALE as int),
        ensures
            c.wf(),
            c.position == position,
            c.right == right,
            c.up == up,
            c.forward == forward,
            c.linvel == linvel,
            c.angvel == angvel,
    {
        Craft { position, right, up, forward, linvel, angvel, mounts: MountTable::new() }
    }

    /// Spawn a craft at the world origin, axis-aligned and at rest: the
    /// identity pose, facing along the negative world z axis.
    pub fn identity_at_rest() -> (c: Craft)
        ensures
            c.wf(),
            c.position@ == (V3 { x: 0, y: 0, z: 0 }),
            c.right@ == (V3 { x: SCALE as int, y: 0, z: 0 }),
            c.up@ == (V3 { x: 0, y: SCALE as int, z: 0 }),
            c.forward@ == (V3 { x: 0, y: 0, z: -(SCALE as int) }),
            c.linvel@ == (V3 { x: 0, y: 0, z: 0 }),
            c.angvel@ == (V3 { x: 0, y: 0, z: 0 }),
    {
        Craft::new(
            Vec3 { x: 0, y: 0, z: 0 },
            Vec3 { x: SCALE, y: 0, z: 0 },
            Vec3 { x: 0, y: SCALE, z: 0 },
            Vec3 { x: 0, y: 0, z: -SCALE },
            Vec3 { x: 0, y: 0, z: 0 },
            Vec3 { x: 0, y: 0, z: 0 },
        )
    }

    /// Carry a local-space point, such as a mount offset, into world space
    /// through the craft's current pose.
    pub fn local_to_world(&self, l: &Vec3) -> (w: Vec3)
        requires
            self.wf(),
            v3_in_range(l@, SCALE as int),
        ensures
            w@ == pose_apply(*self, l@),
    {
        proof {
            lemma_pose_products_bounded(*self, l@);
            lemma_tdiv_bound(
                l@.x * self.right@.x + l@.y * self.up@.x - l@.z * self.forward@.x,
                SCALE as int,
                3_000_000_000_000,
            );
            lemma_tdiv_bound(
                l@.x * self.right@.y + l@.y * self.up@.y - l@.z * self.forward@.y,
                SCALE as int,
                3_000_000_000_000,
            );
            lemma_tdiv_bound(
                l@.x * self.right@.z + l@.y * self.up@.z - l@.z * self.forward@.z,
                SCALE as int,
                3_000_000_000_000,
            );
        }
        let sx: i64 = l.x * self.right.x + l.y * self.up.x - l.z * self.forward.x;
        let sy: i64 = l.x * self.right.y + l.y * self.up.y - l.z * self.forward.y;
        let sz: i64 = l.x * self.right.z + l.y * self.up.z - l.z * self.forward.z;
        Vec3 {
            x: self.position.x + trunc_div(sx, SCALE),
            y: self.position.y + trunc_div(sy, SCALE),
            z: self.position.z + trunc_div(sz, SCALE),
        }
    }
}

/// Each rotated component of a bounded local point stays within three
/// squared scales before the rescale.
proof fn lemma_pose_products_bounded(c: Craft, l: V3)
    requires
        c.wf(),
        v3_in_range(l, SCALE as int),
    ensures
        -1_000_000_000_000 <= l.x * c.right@.x <= 1_000_000_000_000,
        -1_000_000_000_000 <= l.y * c.up@.x <= 1_000_000_000_000,
        -1_000_000_000_000 <= l.z * c.forward@.x <= 1_000_000_000_000,
        -1_000_000_000_000 <= l.x * c.right@.y <= 1_000_000_000_000,
        -1_000_000_000_000 <= l.y * c.up@.y <= 1_000_000_000_000,
        -1_000_000_000_000 <= l.z * c.forward@.y <= 1_000_000_000_000,
        -1_000_000_000_000 <= l.x * c.right@.z <= 1_000_000_000_000,
        -1_000_000_000_000 <= l.y * c.up@.z <= 1_000_000_000_000,
        -1_000_000_000_000 <= l.z * c.forward@.z <= 1_000_000_000_000,
{
    lemma_unit_product_bounded(l.x, c.right@.x);
    lemma_unit_product_bounded(l.y, c.up@.x);
    lemma_unit_product_bounded(l.z, c.forward@.x);
    lemma_unit_product_bounded(l.x, c.right@.y);
    lemma_unit_product_bounded(l.y, c.up@.y);
    lemma_unit_product_bounded(l.z, c.forward@.y);
    lemma_unit_product_bounded(l.x, c.right@.z);
    lemma_unit_product_bounded(l.y, c.up@.z);
    lemma_unit_product_bounded(l.z, c.forward@.z);
}

/// The product of two components no longer than a scale stays within one
/// squared scale.
proof fn lemma_unit_product_bounded(a: int, b: int)
    by (nonlinear_arith)
    requires
        -(SCALE as int) <= a <= SCALE as int,
        -(SCALE as int) <= b <= SCALE as int,
    ensures
        -1_000_000_000_000 <= a * b <= 1_000_000_000_000,
{
}

} // verus!
