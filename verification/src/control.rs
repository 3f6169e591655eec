use vstd::prelude::*;

verus! {

use crate::action::PlayerAction;
use crate::action::Thruster;
use crate::action::ThrusterPair;
use crate::action::pair_along_up;
use crate::action::pair_first;
use crate::action::pair_second;
use crate::action::pair_sign;
use crate::action::rotates_about_up;
use crate::action::rotation_sign;
use crate::action::thruster_at;
use crate::craft::Craft;
use crate::craft::lemma_mounts_bounded;
use crate::craft::mount_model;
use crate::craft::pose_apply;
use crate::vec3::SCALED_BOUND;
use crate::vec3::V3;
use crate::vec3::Vec3;
use crate::vec3::v3_add;
use crate::vec3::v3_in_range;
use crate::vec3::v3_scaled;
use crate::vec3::v3_zero;

/// Gain of a fully held opposing pair: it adds a fifth of a unit per second
/// of held time to the linear velocity, in micro-units per micro-second of
/// tick.
pub const LINEAR_GAIN: i64 = 200_000;

/// Gain of a single held thruster: it adds a twentieth of a unit per second
/// of held time to the angular velocity.
pub const ANGULAR_GAIN: i64 = 50_000;

/// Longest tick the control law admits: ten seconds, far above any real
/// frame, and small enough that no rescale can overflow.
pub const MAX_TICK_MICROS: i64 = 10_000_000;

/// Largest velocity component the law accepts before a tick; velocities grow
/// without damping under sustained input, and this cap only keeps the
/// accumulation inside the machine range.
pub const VEL_LIMIT: i64 = 1_000_000_000_000_000;

/// Radius of the feedback marker drawn at a firing thruster's mount.
pub const MARKER_RADIUS: i64 = 500_000;

/// Which thruster actions are held this tick; the input layer finalizes one
/// snapshot per tick before the control law runs, and the law only reads it.
#[derive(Clone, Copy, PartialEq, Eq, Structural, Debug, Default)]
pub struct InputSnapshot {
    pub rear_right: bool,
    pub rear_left: bool,
    pub front_right: bool,
    pub front_left: bool,
    pub bottom_right: bool,
    pub bottom_left: bool,
    pub top_right: bool,
    pub top_left: bool,
}

impl InputSnapshot {
    /// Whether the action of thruster `t` is held this tick.
    pub open spec fn held(self, t: PlayerAction) -> bool {
        match t {
            PlayerAction::RearRightThruster => self.rear_right,
            PlayerAction::RearLeftThruster => self.rear_left,
            PlayerAction::FrontRightThruster => self.front_right,
            PlayerAction::FrontLeftThruster => self.front_left,
            PlayerAction::BottomRightThruster => self.bottom_right,
            PlayerAction::BottomLeftThruster => self.bottom_left,
            PlayerAction::TopRightThruster => self.top_right,
            PlayerAction::TopLeftThruster => self.top_left,
        }
    }

    /// The snapshot of a tick on which no input arrived.
    pub fn none_held() -> (r: InputSnapshot)
        ensures
            forall|t: PlayerAction| !r.held(t),
    {
        InputSnapshot {
            rear_right: false,
            rear_left: false,
            front_right: false,
            front_left: false,
            bottom_right: false,
            bottom_left: false,
            top_right: false,
            top_left: false,
        }
    }

    /// The snapshot with `t` held in addition to everything already held.
    pub fn hold(self, t: PlayerAction) -> (r: InputSnapshot)
        ensures
            forall|u: PlayerAction| r.held(u) == (u == t || self.held(u)),
    {
        let mut r = self;
        match t {
            PlayerAction::RearRightThruster => r.rear_right = true,
            PlayerAction::RearLeftThruster => r.rear_left = true,
            PlayerAction::FrontRightThruster => r.front_right = true,
            PlayerAction::FrontLeftThruster => r.front_left = true,
            PlayerAction::BottomRightThruster => r.bottom_right = true,
            PlayerAction::BottomLeftThruster => r.bottom_left = true,
            PlayerAction::TopRightThruster => r.top_right = true,
            PlayerAction::TopLeftThruster => r.top_left = true,
        }
        r
    }

    /// Read the held state of `t`.
    pub fn pressed(&self, t: PlayerAction) -> (b: bool)
        ensures
            b == self.held(t),
    {
        match t {
            PlayerAction::RearRightThruster => self.rear_right,
            PlayerAction::RearLeftThruster => self.rear_left,
            PlayerAction::FrontRightThruster => self.front_right,
            PlayerAction::FrontLeftThruster => self.front_left,
            PlayerAction::BottomRightThruster => self.bottom_right,
            PlayerAction::BottomLeftThruster => self.bottom_left,
            PlayerAction::TopRightThruster => self.top_right,
            PlayerAction::TopLeftThruster => self.top_left,
        }
    }
}

/// How many thrusters of the first `n` in canonical order are held.
pub open spec fn count_held_prefix(i: InputSnapshot, n: int) -> int
    decreases n,
{
    if n <= 0 {
        0
    } else {
        count_held_prefix(i, n - 1) + if i.held(thruster_at(n - 1)) {
            1int
        } else {
            0int
        }
    }
}

/// How many thrusters are held this tick.
pub open spec fn count_held(i: InputSnapshot) -> int {
    count_held_prefix(i, 8)
}

/// The world-space axis a pair translates along: the craft's forward axis
/// for the rear and front pairs, its up axis for the bottom and top pairs.
pub open spec fn pair_axis(c: Craft, p: ThrusterPair) -> V3 {
    if pair_along_up(p) {
        c.up@
    } else {
        c.forward@
    }
}

/// The world-space axis a lone thruster rotates about.
pub open spec fn rotation_axis(c: Craft, t: PlayerAction) -> V3 {
    if rotates_about_up(t) {
        c.up@
    } else {
        c.forward@
    }
}

/// The linear velocity a pair contributes this tick: its axis scaled by its
/// gain over the tick, and only when both members are held at once.
pub open spec fn pair_term(i: InputSnapshot, c: Craft, dt: int, p: ThrusterPair) -> V3 {
    if i.held(pair_first(p)) && i.held(pair_second(p)) {
        v3_scaled(pair_axis(c, p), pair_sign(p) * (LINEAR_GAIN * dt))
    } else {
        v3_zero()
    }
}

/// The linear velocity delta of one tick: the contributions of the four
/// pairs, accumulated additively.
pub open spec fn lin_delta(i: InputSnapshot, c: Craft, dt: int) -> V3 {
    v3_add(
        v3_add(
            v3_add(pair_term(i, c, dt, ThrusterPair::Rear), pair_term(i, c, dt, ThrusterPair::Front)),
            pair_term(i, c, dt, ThrusterPair::Bottom),
        ),
        pair_term(i, c, dt, ThrusterPair::Top),
    )
}

/// The angular velocity a single thruster contributes this tick, whether or
/// not its partner is also held: its rotation axis scaled by its signed gain
/// over the tick.
pub open spec fn rotation_term(i: InputSnapshot, c: Craft, dt: int, t: PlayerAction) -> V3 {
    if i.held(t) {
        v3_scaled(rotation_axis(c, t), rotation_sign(t) * (ANGULAR_GAIN * dt))
    } else {
        v3_zero()
    }
}

/// The rotations about the craft's up axis: the contributions of the four
/// rear and front thrusters, accumulated additively.
pub open spec fn ang_up_part(i: InputSnapshot, c: Craft, dt: int) -> V3 {
    v3_add(
        v3_add(
            v3_add(
                rotation_term(i, c, dt, thruster_at(0)),
                rotation_term(i, c, dt, thruster_at(1)),
            ),
            rotation_term(i, c, dt, thruster_at(2)),
        ),
        rotation_term(i, c, dt, thruster_at(3)),
    )
}

/// The rotations about the craft's forward axis: the contributions of the
/// four bottom and top thrusters, accumulated additively.
pub open spec fn ang_forward_part(i: InputSnapshot, c: Craft, dt: int) -> V3 {
    v3_add(
        v3_add(
            v3_add(
                rotation_term(i, c, dt, thruster_at(4)),
                rotation_term(i, c, dt, thruster_at(5)),
            ),
            rotation_term(i, c, dt, thruster_at(6)),
        ),
        rotation_term(i, c, dt, thruster_at(7)),
    )
}

/// The angular velocity delta of one tick: every held thruster contributes,
/// whether or not its partner does.
pub open spec fn ang_delta(i: InputSnapshot, c: Craft, dt: int) -> V3 {
    v3_add(ang_up_part(i, c, dt), ang_forward_part(i, c, dt))
}

/// What one feedback marker asks the renderer for: a highlight sphere of
/// fixed radius at a mount, in the renderer's fixed highlight color and the
/// craft's current orientation.
pub struct DrawModel {
    pub thruster: PlayerAction,
    pub position: V3,
    pub radius: int,
}

/// A feedback draw request emitted for one held thruster; the render
/// collaborator draws it and forgets it before the next tick.
#[derive(Clone, Copy, PartialEq, Eq, Structural, Debug)]
pub struct DrawRequest {
    pub thruster: Thruster,
    pub position: Vec3,
    pub radius_micros: i64,
}

impl View for DrawRequest {
    type V = DrawModel;

    open spec fn view(&self) -> DrawModel {
        DrawModel {
            thruster: self.thruster.0,
            position: self.position@,
            radius: self.radius_micros as int,
        }
    }
}

/// The marker emitted for thruster `t` of craft `c`: the mount offset
/// carried into world space through the craft's pose.
pub open spec fn draw_model(c: Craft, t: PlayerAction) -> DrawModel {
    DrawModel {
        thruster: t,
        position: pose_apply(c, mount_model(t)),
        radius: MARKER_RADIUS as int,
    }
}

/// The markers emitted for the held thrusters among the first `n` in
/// canonical order.
pub open spec fn draw_prefix(i: InputSnapshot, c: Craft, n: int) -> Seq<DrawModel>
    decreases n,
{
    if n <= 0 {
        Seq::empty()
    } else if i.held(thruster_at(n - 1)) {
        draw_prefix(i, c, n - 1).push(draw_model(c, thruster_at(n - 1)))
    } else {
        draw_prefix(i, c, n - 1)
    }
}

/// The full feedback list of one tick: one marker per held thruster, in
/// canonical order.
pub open spec fn draw_list(i: InputSnapshot, c: Craft) -> Seq<DrawModel> {
    draw_prefix(i, c, 8)
}

/// The feedback pass emits one marker per held thruster: the list over the
/// first `n` thrusters is exactly as long as the count of held ones among
/// them.
proof fn lemma_draw_prefix_len(i: InputSnapshot, c: Craft, n: int)
    requires
        0 <= n <= 8,
    ensures
        draw_prefix(i, c, n).len() == count_held_prefix(i, n),
    decreases n,
{
    if n > 0 {
        lemma_draw_prefix_len(i, c, n - 1);
    }
}

/// Walk all eight thrusters and emit one feedback marker per held one, at
/// its mount carried into world space through the craft's current pose.
fn emit_feedback(c: &Craft, input: &InputSnapshot) -> (draws: Vec<DrawRequest>)
    requires
        c.wf(),
    ensures
        draws@.len() == draw_list(*input, *c).len(),
        forall|k: int|
            0 <= k < draws@.len() ==> #[trigger] draws@[k]@ == draw_list(*input, *c)[k],
{
    let order = PlayerAction::thruster_iterator();
    let mut draws: Vec<DrawRequest> = Vec::new();
    let mut k: usize = 0;
    while k < 8
        invariant
            c.wf(),
            order@.len() == 8,
            forall|j: int| 0 <= j < 8 ==> order@[j] == thruster_at(j),
            k <= 8,
            draws@.len() == draw_prefix(*input, *c, k as int).len(),
            forall|j: int|
                0 <= j < draws@.len() ==> #[trigger] draws@[j]@ == draw_prefix(
                    *input,
                    *c,
                    k as int,
                )[j],
        decreases 8 - k,
    {
        let t = order[k];
        if input.pressed(t) {
            proof {
                lemma_mounts_bounded();
            }
            let off = c.mounts.offset(t);
            let pos = c.local_to_world(&off);
            let req = DrawRequest {
                thruster: Thruster(t),
                position: pos,
                radius_micros: MARKER_RADIUS,
            };
            draws.push(req);
            proof {
                assert(draw_prefix(*input, *c, k + 1) == draw_prefix(*input, *c, k as int).push(
                    draw_model(*c, thruster_at(k as int)),
                ));
            }
        } else {
            proof {
                assert(draw_prefix(*input, *c, k + 1) == draw_prefix(*input, *c, k as int));
            }
        }
        k = k + 1;
    }
    draws
}

/// One simulation tick of the thruster control law.
///
/// Reads the finalized input snapshot and the craft's current orientation,
/// accumulates the pair translations onto the linear velocity and the
/// per-thruster rotations onto the angular velocity, and returns the
/// feedback markers for every held thruster. The deltas are added
/// unconditionally: adding a zero delta is a no-op, so a tick with nothing
/// held observably changes nothing. The pose and the mount table are left
/// untouched; the physics integrator owns them.
pub fn tick(craft: &mut Craft, input: &InputSnapshot, delta_micros: i64) -> (draws: Vec<
    DrawRequest,
>)
    requires
        old(craft).wf(),
        0 <= delta_micros <= MAX_TICK_MICROS,
        v3_in_range(old(craft).linvel@, VEL_LIMIT as int),
        v3_in_range(old(craft).angvel@, VEL_LIMIT as int),
    ensures
        final(craft).wf(),
        final(craft).position == old(craft).position,
        final(craft).right == old(craft).right,
        final(craft).up == old(craft).up,
        final(craft).forward == old(craft).forward,
        final(craft).mounts == old(craft).mounts,
        final(craft).linvel@ == v3_add(
            old(craft).linvel@,
            lin_delta(*input, *old(craft), delta_micros as int),
        ),
        final(craft).angvel@ == v3_add(
            old(craft).angvel@,
            ang_delta(*input, *old(craft), delta_micros as int),
        ),
        draws@.len() == count_held(*input),
        draws@.len() == draw_list(*input, *old(craft)).len(),
        forall|k: int|
            0 <= k < draws@.len() ==> #[trigger] draws@[k]@ == draw_list(*input, *old(craft))[k],
{
    proof {
        lemma_draw_prefix_len(*input, *old(craft), 8);
    }
    let draws = emit_feedback(craft, input);
    let lin = linear_contribution(craft, input, delta_micros);
    let ang = angular_contribution(craft, input, delta_micros);
    craft.linvel = craft.linvel.add(&lin);
    craft.angvel = craft.angvel.add(&ang);
    draws
}

/// Largest component either velocity delta of one tick can come out with:
/// at most eight contributions of at most `SCALED_BOUND` each.
pub const DELTA_BOUND: i64 = 16_000_000;

/// The translation step of one tick: fire each opposing pair whose two
/// members are both held, and accumulate the contributions.
fn linear_contribution(c: &Craft, input: &InputSnapshot, delta_micros: i64) -> (r: Vec3)
    requires
        c.wf(),
        0 <= delta_micros <= MAX_TICK_MICROS,
    ensures
        r@ == lin_delta(*input, *c, delta_micros as int),
        v3_in_range(r@, DELTA_BOUND as int),
{
    let t_rear = pair_contribution(c, input, delta_micros, ThrusterPair::Rear);
    let t_front = pair_contribution(c, input, delta_micros, ThrusterPair::Front);
    let t_bottom = pair_contribution(c, input, delta_micros, ThrusterPair::Bottom);
    let t_top = pair_contribution(c, input, delta_micros, ThrusterPair::Top);
    let mut lin: Vec3 = t_rear;
    lin = lin.add(&t_front);
    lin = lin.add(&t_bottom);
    lin = lin.add(&t_top);
    lin
}

/// The translation one pair contributes this tick: zero unless both of its
/// members are held at once.
fn pair_contribution(c: &Craft, input: &InputSnapshot, delta_micros: i64, p: ThrusterPair) -> (r:
    Vec3)
    requires
        c.wf(),
        0 <= delta_micros <= MAX_TICK_MICROS,
    ensures
        r@ == pair_term(*input, *c, delta_micros as int, p),
        v3_in_range(r@, SCALED_BOUND as int),
{
    let lin_n: i64 = LINEAR_GAIN * delta_micros;
    let (first, second) = match p {
        ThrusterPair::Rear => (PlayerAction::RearRightThruster, PlayerAction::RearLeftThruster),
        ThrusterPair::Front => (PlayerAction::FrontRightThruster, PlayerAction::FrontLeftThruster),
        ThrusterPair::Bottom => (
            PlayerAction::BottomRightThruster,
            PlayerAction::BottomLeftThruster,
        ),
        ThrusterPair::Top => (PlayerAction::TopRightThruster, PlayerAction::TopLeftThruster),
    };
    let axis: Vec3 = match p {
        ThrusterPair::Rear => c.forward,
        ThrusterPair::Front => c.forward,
        ThrusterPair::Bottom => c.up,
        ThrusterPair::Top => c.up,
    };
    let sign: i64 = match p {
        ThrusterPair::Rear => 1,
        ThrusterPair::Front => -1,
        ThrusterPair::Bottom => 1,
        ThrusterPair::Top => -1,
    };
    proof {
        assert(first == pair_first(p) && second == pair_second(p));
        assert(axis@ == pair_axis(*c, p));
        assert(sign as int == pair_sign(p));
    }
    if input.pressed(first) && input.pressed(second) {
        axis.scaled(sign * lin_n)
    } else {
        Vec3::zero()
    }
}

/// The rotation step of one tick: every held thruster contributes about its
/// axis with its own sign, independent of its partner.
fn angular_contribution(c: &Craft, input: &InputSnapshot, delta_micros: i64) -> (r: Vec3)
    requires
        c.wf(),
        0 <= delta_micros <= MAX_TICK_MICROS,
    ensures
        r@ == ang_delta(*input, *c, delta_micros as int),
        v3_in_range(r@, DELTA_BOUND as int),
{
    let up_part = angular_up_contribution(c, input, delta_micros);
    let forward_part = angular_forward_contribution(c, input, delta_micros);
    up_part.add(&forward_part)
}

/// The up-axis rotations of one tick: the four rear and front thrusters.
fn angular_up_contribution(c: &Craft, input: &InputSnapshot, delta_micros: i64) -> (r: Vec3)
    requires
        c.wf(),
        0 <= delta_micros <= MAX_TICK_MICROS,
    ensures
        r@ == ang_up_part(*input, *c, delta_micros as int),
        v3_in_range(r@, 4 * SCALED_BOUND as int),
{
    let r_rr = rotation_contribution(c, input, delta_micros, PlayerAction::RearRightThruster);
    let r_rl = rotation_contribution(c, input, delta_micros, PlayerAction::RearLeftThruster);
    let r_fr = rotation_contribution(c, input, delta_micros, PlayerAction::FrontRightThruster);
    let r_fl = rotation_contribution(c, input, delta_micros, PlayerAction::FrontLeftThruster);
    let mut ang: Vec3 = r_rr;
    ang = ang.add(&r_rl);
    ang = ang.add(&r_fr);
    ang = ang.add(&r_fl);
    ang
}

/// The forward-axis rotations of one tick: the four bottom and top
/// thrusters.
fn angular_forward_contribution(c: &Craft, input: &InputSnapshot, delta_micros: i64) -> (r: Vec3)
    requires
        c.wf(),
        0 <= delta_micros <= MAX_TICK_MICROS,
    ensures
        r@ == ang_forward_part(*input, *c, delta_micros as int),
        v3_in_range(r@, 4 * SCALED_BOUND as int),
{
    let r_br = rotation_contribution(c, input, delta_micros, PlayerAction::BottomRightThruster);
    let r_bl = rotation_contribution(c, input, delta_micros, PlayerAction::BottomLeftThruster);
    let r_tr = rotation_contribution(c, input, delta_micros, PlayerAction::TopRightThruster);
    let r_tl = rotation_contribution(c, input, delta_micros, PlayerAction::TopLeftThruster);
    let mut ang: Vec3 = r_br;
    ang = ang.add(&r_bl);
    ang = ang.add(&r_tr);
    ang = ang.add(&r_tl);
    ang
}

/// The rotation one thruster contributes this tick: zero unless it is held.
#[verifier::rlimit(40)]
fn rotation_contribution(c: &Craft, input: &InputSnapshot, delta_micros: i64, t: PlayerAction)
    -> (r: Vec3)
    requires
        c.wf(),
        0 <= delta_micros <= MAX_TICK_MICROS,
    ensures
        r@ == rotation_term(*input, *c, delta_micros as int, t),
        v3_in_range(r@, SCALED_BOUND as int),
{
    let ang_n: i64 = ANGULAR_GAIN * delta_micros;
    let axis: Vec3 = match t {
        PlayerAction::RearRightThruster => c.up,
        PlayerAction::RearLeftThruster => c.up,
        PlayerAction::FrontRightThruster => c.up,
        PlayerAction::FrontLeftThruster => c.up,
        PlayerAction::BottomRightThruster => c.forward,
        PlayerAction::BottomLeftThruster => c.forward,
        PlayerAction::TopRightThruster => c.forward,
        PlayerAction::TopLeftThruster => c.forward,
    };
    let sign: i64 = match t {
        PlayerAction::RearRightThruster => 1,
        PlayerAction::RearLeftThruster => -1,
        PlayerAction::FrontRightThruster => -1,
        PlayerAction::FrontLeftThruster => 1,
        PlayerAction::BottomRightThruster => 1,
        PlayerAction::BottomLeftThruster => -1,
        PlayerAction::TopRightThruster => -1,
        PlayerAction::TopLeftThruster => 1,
    };
    proof {
        assert(axis@ == rotation_axis(*c, t));
        assert(sign as int == rotation_sign(t));
    }
    if input.pressed(t) {
        axis.scaled(sign * ang_n)
    } else {
        Vec3::zero()
    }
}

} // verus!
