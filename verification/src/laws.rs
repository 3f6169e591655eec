use vstd::prelude::*;

verus! {

use crate::action::PlayerAction;
use crate::action::ThrusterPair;
use crate::action::pair_first;
use crate::action::pair_partner;
use crate::action::pair_second;
use crate::action::pair_sign;
use crate::action::rotation_sign;
use crate::action::thruster_at;
use crate::action::thruster_index;
use crate::action::lemma_thruster_order_bijective;
use crate::control::ANGULAR_GAIN;
use crate::control::InputSnapshot;
use crate::control::LINEAR_GAIN;
use crate::control::MARKER_RADIUS;
use crate::control::ang_delta;
use crate::control::count_held;
use crate::control::count_held_prefix;
use crate::control::draw_list;
use crate::control::draw_model;
use crate::control::draw_prefix;
use crate::control::lin_delta;
use crate::control::pair_axis;
use crate::control::rotation_axis;
use crate::craft::Craft;
use crate::craft::mount_model;
use crate::craft::pose_apply;
use crate::fixed::SCALE;
use crate::fixed::SCALE_SQ;
use crate::fixed::lemma_tdiv_nonzero;
use crate::fixed::lemma_tdiv_sign_and_shrink;
use crate::vec3::V3;
use crate::vec3::lemma_v3_scaled_cancels;
use crate::vec3::v3_add;
use crate::vec3::v3_scaled;
use crate::vec3::v3_zero;

/// Whether some component of `v` carries a full unit: true of every exactly
/// axis-aligned unit vector, such as the axes of the identity pose.
pub open spec fn has_unit_component(v: V3) -> bool {
    ||| v.x == SCALE || v.x == -(SCALE as int)
    ||| v.y == SCALE || v.y == -(SCALE as int)
    ||| v.z == SCALE || v.z == -(SCALE as int)
}

/// Holding both members of one opposing pair, and nothing else, translates
/// without turning: the angular delta is exactly zero, and the linear delta
/// is exactly the pair's axis scaled by its signed gain over the tick. Where
/// an axis component is zero, the linear delta's component is zero too: the
/// delta stays on the pair's axis.
pub proof fn lemma_pair_cancellation(i: InputSnapshot, c: Craft, dt: int, p: ThrusterPair)
    requires
        forall|t: PlayerAction| #[trigger] i.held(t) <==> (t == pair_first(p) || t == pair_second(p)),
    ensures
        ang_delta(i, c, dt) == v3_zero(),
        lin_delta(i, c, dt) == v3_scaled(pair_axis(c, p), pair_sign(p) * (LINEAR_GAIN * dt)),
        pair_axis(c, p).x == 0 ==> lin_delta(i, c, dt).x == 0,
        pair_axis(c, p).y == 0 ==> lin_delta(i, c, dt).y == 0,
        pair_axis(c, p).z == 0 ==> lin_delta(i, c, dt).z == 0,
{
    assert(i.held(PlayerAction::RearRightThruster) <==> (PlayerAction::RearRightThruster
        == pair_first(p) || PlayerAction::RearRightThruster == pair_second(p)));
    assert(i.held(PlayerAction::RearLeftThruster) <==> (PlayerAction::RearLeftThruster
        == pair_first(p) || PlayerAction::RearLeftThruster == pair_second(p)));
    assert(i.held(PlayerAction::FrontRightThruster) <==> (PlayerAction::FrontRightThruster
        == pair_first(p) || PlayerAction::FrontRightThruster == pair_second(p)));
    assert(i.held(PlayerAction::FrontLeftThruster) <==> (PlayerAction::FrontLeftThruster
        == pair_first(p) || PlayerAction::FrontLeftThruster == pair_second(p)));
    assert(i.held(PlayerAction::BottomRightThruster) <==> (PlayerAction::BottomRightThruster
        == pair_first(p) || PlayerAction::BottomRightThruster == pair_second(p)));
    assert(i.held(PlayerAction::BottomLeftThruster) <==> (PlayerAction::BottomLeftThruster
        == pair_first(p) || PlayerAction::BottomLeftThruster == pair_second(p)));
    assert(i.held(PlayerAction::TopRightThruster) <==> (PlayerAction::TopRightThruster
        == pair_first(p) || PlayerAction::TopRightThruster == pair_second(p)));
    assert(i.held(PlayerAction::TopLeftThruster) <==> (PlayerAction::TopLeftThruster
        == pair_first(p) || PlayerAction::TopLeftThruster == pair_second(p)));
    lemma_v3_scaled_cancels(rotation_axis(c, pair_first(p)), rotation_sign(pair_first(p)) * (
    ANGULAR_GAIN * dt));
    lemma_scaled_keeps_zero_support(pair_axis(c, p), pair_sign(p) * (LINEAR_GAIN * dt));
}

/// Holding exactly one thruster turns without translating: the linear delta
/// is exactly zero, and the angular delta is exactly the thruster's rotation
/// axis scaled by its signed gain over the tick, as the sign table gives it.
pub proof fn lemma_single_thruster_rotation(i: InputSnapshot, c: Craft, dt: int, t: PlayerAction)
    requires
        forall|u: PlayerAction| #[trigger] i.held(u) <==> u == t,
    ensures
        lin_delta(i, c, dt) == v3_zero(),
        ang_delta(i, c, dt) == v3_scaled(rotation_axis(c, t), rotation_sign(t) * (ANGULAR_GAIN * dt)),
{
    assert(i.held(PlayerAction::RearRightThruster) <==> PlayerAction::RearRightThruster == t);
    assert(i.held(PlayerAction::RearLeftThruster) <==> PlayerAction::RearLeftThruster == t);
    assert(i.held(PlayerAction::FrontRightThruster) <==> PlayerAction::FrontRightThruster == t);
    assert(i.held(PlayerAction::FrontLeftThruster) <==> PlayerAction::FrontLeftThruster == t);
    assert(i.held(PlayerAction::BottomRightThruster) <==> PlayerAction::BottomRightThruster == t);
    assert(i.held(PlayerAction::BottomLeftThruster) <==> PlayerAction::BottomLeftThruster == t);
    assert(i.held(PlayerAction::TopRightThruster) <==> PlayerAction::TopRightThruster == t);
    assert(i.held(PlayerAction::TopLeftThruster) <==> PlayerAction::TopLeftThruster == t);
}

/// A tick with no thruster held changes nothing: both deltas are exactly
/// zero, and accumulating them onto the craft's velocities leaves the
/// velocities as they were.
pub proof fn lemma_no_input_no_change(i: InputSnapshot, c: Craft, dt: int)
    requires
        forall|t: PlayerAction| !(#[trigger] i.held(t)),
    ensures
        lin_delta(i, c, dt) == v3_zero(),
        ang_delta(i, c, dt) == v3_zero(),
        v3_add(c.linvel@, lin_delta(i, c, dt)) == c.linvel@,
        v3_add(c.angvel@, ang_delta(i, c, dt)) == c.angvel@,
{
    assert(!i.held(PlayerAction::RearRightThruster));
    assert(!i.held(PlayerAction::RearLeftThruster));
    assert(!i.held(PlayerAction::FrontRightThruster));
    assert(!i.held(PlayerAction::FrontLeftThruster));
    assert(!i.held(PlayerAction::BottomRightThruster));
    assert(!i.held(PlayerAction::BottomLeftThruster));
    assert(!i.held(PlayerAction::TopRightThruster));
    assert(!i.held(PlayerAction::TopLeftThruster));
}

/// Holding two distinct, non-opposing thrusters at once turns exactly as
/// much as the two would turn separately: the angular delta of the combined
/// snapshot is the vector sum of the two single-thruster deltas, and the
/// linear delta is zero since no pair is complete.
pub proof fn lemma_rotation_additivity(
    i_ab: InputSnapshot,
    i_a: InputSnapshot,
    i_b: InputSnapshot,
    c: Craft,
    dt: int,
    a: PlayerAction,
    b: PlayerAction,
)
    requires
        a != b,
        pair_partner(a) != b,
        forall|u: PlayerAction| #[trigger] i_ab.held(u) <==> (u == a || u == b),
        forall|u: PlayerAction| #[trigger] i_a.held(u) <==> u == a,
        forall|u: PlayerAction| #[trigger] i_b.held(u) <==> u == b,
    ensures
        ang_delta(i_ab, c, dt) == v3_add(ang_delta(i_a, c, dt), ang_delta(i_b, c, dt)),
        lin_delta(i_ab, c, dt) == v3_zero(),
{
    assert forall|k: int| 0 <= k < 8 implies crate::control::rotation_term(i_ab, c, dt, #[trigger]
    thruster_at(k)) == v3_add(
        crate::control::rotation_term(i_a, c, dt, thruster_at(k)),
        crate::control::rotation_term(i_b, c, dt, thruster_at(k)),
    ) by {
        let t = thruster_at(k);
        assert(i_ab.held(t) <==> (t == a || t == b));
        assert(i_a.held(t) <==> t == a);
        assert(i_b.held(t) <==> t == b);
    }
    assert(i_ab.held(PlayerAction::RearRightThruster) <==> (PlayerAction::RearRightThruster == a
        || PlayerAction::RearRightThruster == b));
    assert(i_ab.held(PlayerAction::RearLeftThruster) <==> (PlayerAction::RearLeftThruster == a
        || PlayerAction::RearLeftThruster == b));
    assert(i_ab.held(PlayerAction::FrontRightThruster) <==> (PlayerAction::FrontRightThruster == a
        || PlayerAction::FrontRightThruster == b));
    assert(i_ab.held(PlayerAction::FrontLeftThruster) <==> (PlayerAction::FrontLeftThruster == a
        || PlayerAction::FrontLeftThruster == b));
    assert(i_ab.held(PlayerAction::BottomRightThruster) <==> (PlayerAction::BottomRightThruster
        == a || PlayerAction::BottomRightThruster == b));
    assert(i_ab.held(PlayerAction::BottomLeftThruster) <==> (PlayerAction::BottomLeftThruster == a
        || PlayerAction::BottomLeftThruster == b));
    assert(i_ab.held(PlayerAction::TopRightThruster) <==> (PlayerAction::TopRightThruster == a
        || PlayerAction::TopRightThruster == b));
    assert(i_ab.held(PlayerAction::TopLeftThruster) <==> (PlayerAction::TopLeftThruster == a
        || PlayerAction::TopLeftThruster == b));
}

/// Scaling keeps the zero components of a vector zero: the scaled vector
/// stays on the line of the unscaled vector.
pub proof fn lemma_scaled_keeps_zero_support(v: V3, n: int)
    ensures
        v.x == 0 ==> v3_scaled(v, n).x == 0,
        v.y == 0 ==> v3_scaled(v, n).y == 0,
        v.z == 0 ==> v3_scaled(v, n).z == 0,
{
    reveal(v3_scaled);
    lemma_tdiv_sign_and_shrink(0, SCALE_SQ as int);
}

/// A vector with a full unit component, scaled by a coefficient of at least
/// one unit, does not collapse to zero: the unit component keeps at least
/// one fixed-point step.
pub proof fn lemma_scaled_unit_axis_nonzero(v: V3, n: int)
    requires
        has_unit_component(v),
        n >= SCALE || n <= -(SCALE as int),
    ensures
        v3_scaled(v, n) != v3_zero(),
{
    reveal(v3_scaled);
    if v.x == SCALE || v.x == -(SCALE as int) {
        lemma_unit_times_large(v.x, n);
        lemma_tdiv_nonzero(v.x * n, SCALE_SQ as int);
    } else if v.y == SCALE || v.y == -(SCALE as int) {
        lemma_unit_times_large(v.y, n);
        lemma_tdiv_nonzero(v.y * n, SCALE_SQ as int);
    } else {
        lemma_unit_times_large(v.z, n);
        lemma_tdiv_nonzero(v.z * n, SCALE_SQ as int);
    }
}

/// A full unit component times a coefficient of at least one unit carries at
/// least one whole squared scale.
proof fn lemma_unit_times_large(c0: int, n: int)
    by (nonlinear_arith)
    requires
        c0 == SCALE || c0 == -(SCALE as int),
        n >= SCALE || n <= -(SCALE as int),
    ensures
        c0 * n >= SCALE_SQ || c0 * n <= -(SCALE_SQ as int),
{
}

/// On a craft whose pair axis is exactly axis-aligned, a fully held pair and
/// a long enough tick leave a translation that is truly nonzero, not lost to
/// fixed-point truncation.
pub proof fn lemma_pair_translation_nonzero(i: InputSnapshot, c: Craft, dt: int, p: ThrusterPair)
    requires
        forall|t: PlayerAction| #[trigger] i.held(t) <==> (t == pair_first(p) || t == pair_second(p)),
        has_unit_component(pair_axis(c, p)),
        LINEAR_GAIN * dt >= SCALE,
    ensures
        lin_delta(i, c, dt) != v3_zero(),
{
    lemma_pair_cancellation(i, c, dt, p);
    lemma_scaled_unit_axis_nonzero(pair_axis(c, p), pair_sign(p) * (LINEAR_GAIN * dt));
}

/// On a craft whose rotation axis is exactly axis-aligned, a lone held
/// thruster and a long enough tick leave a rotation that is truly nonzero.
pub proof fn lemma_single_thruster_nonzero(i: InputSnapshot, c: Craft, dt: int, t: PlayerAction)
    requires
        forall|u: PlayerAction| #[trigger] i.held(u) <==> u == t,
        has_unit_component(rotation_axis(c, t)),
        ANGULAR_GAIN * dt >= SCALE,
    ensures
        ang_delta(i, c, dt) != v3_zero(),
{
    lemma_single_thruster_rotation(i, c, dt, t);
    lemma_scaled_unit_axis_nonzero(rotation_axis(c, t), rotation_sign(t) * (ANGULAR_GAIN * dt));
}

/// The feedback pass over the first `n` thrusters emits one marker per held
/// thruster among them: the list is as long as that count, every entry is a
/// held thruster's mount carried through the craft's pose, and every held
/// thruster among the first `n` appears.
proof fn lemma_draw_prefix_complete(i: InputSnapshot, c: Craft, n: int)
    requires
        0 <= n <= 8,
    ensures
        draw_prefix(i, c, n).len() == count_held_prefix(i, n),
        forall|k: int|
            0 <= k < draw_prefix(i, c, n).len() ==> {
                let m = #[trigger] draw_prefix(i, c, n)[k];
                &&& i.held(m.thruster)
                &&& m.position == pose_apply(c, mount_model(m.thruster))
                &&& m.radius == MARKER_RADIUS
            },
        forall|j: int|
            0 <= j < n && i.held(#[trigger] thruster_at(j)) ==> exists|k: int|
                0 <= k < draw_prefix(i, c, n).len() && draw_prefix(i, c, n)[k].thruster
                    == thruster_at(j),
    decreases n,
{
    if n > 0 {
        lemma_draw_prefix_complete(i, c, n - 1);
        if i.held(thruster_at(n - 1)) {
            let prev = draw_prefix(i, c, n - 1);
            let m = draw_model(c, thruster_at(n - 1));
            assert(draw_prefix(i, c, n) == prev.push(m));
            assert(draw_prefix(i, c, n)[prev.len() as int] == m);
            assert forall|j: int|
                0 <= j < n && i.held(#[trigger] thruster_at(j)) implies exists|k: int|
                0 <= k < draw_prefix(i, c, n).len() && draw_prefix(i, c, n)[k].thruster
                    == thruster_at(j) by {
                if j == n - 1 {
                    assert(draw_prefix(i, c, n)[prev.len() as int].thruster == thruster_at(j));
                } else {
                    let k0 = choose|k: int|
                        0 <= k < prev.len() && prev[k].thruster == thruster_at(j);
                    assert(draw_prefix(i, c, n)[k0].thruster == thruster_at(j));
                }
            }
        }
    }
}

/// Feedback completeness: one tick's draw list holds exactly one marker per
/// held thruster. It is as long as the number of held thrusters, each marker
/// stands at its thruster's mount carried into world space through the
/// craft's pose with the fixed marker radius, and every held thruster's
/// marker is in the list.
pub proof fn lemma_feedback_completeness(i: InputSnapshot, c: Craft)
    ensures
        draw_list(i, c).len() == count_held(i),
        forall|k: int|
            0 <= k < draw_list(i, c).len() ==> {
                let m = #[trigger] draw_list(i, c)[k];
                &&& i.held(m.thruster)
                &&& m.position == pose_apply(c, mount_model(m.thruster))
                &&& m.radius == MARKER_RADIUS
            },
        forall|t: PlayerAction|
            i.held(t) ==> exists|k: int|
                0 <= k < draw_list(i, c).len() && draw_list(i, c)[k].thruster == t,
{
    lemma_draw_prefix_complete(i, c, 8);
    lemma_thruster_order_bijective();
    assert forall|t: PlayerAction| i.held(t) implies exists|k: int|
        0 <= k < draw_list(i, c).len() && draw_list(i, c)[k].thruster == t by {
        assert(thruster_at(thruster_index(t)) == t);
        assert(0 <= thruster_index(t) < 8);
        assert(i.held(thruster_at(thruster_index(t))));
    }
}

} // verus!
