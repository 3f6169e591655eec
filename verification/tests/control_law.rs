use thrusters::action::PlayerAction;
use thrusters::control::tick;
use thrusters::control::InputSnapshot;
use thrusters::craft::Craft;
use thrusters::vec3::Vec3;

const SCALE: i64 = 1_000_000;
const SECOND: i64 = 1_000_000;

fn v(x: i64, y: i64, z: i64) -> Vec3 {
    Vec3 { x, y, z }
}

fn identity_craft() -> Craft {
    Craft::identity_at_rest()
}

fn held(actions: &[PlayerAction]) -> InputSnapshot {
    let mut snap = InputSnapshot::none_held();
    for &a in actions {
        snap = snap.hold(a);
    }
    snap
}

#[test]
fn scenario_rear_pair_pure_translation() {
    // Identity pose at rest, one full second, rear pair held: the craft
    // gains forward * 0.2 of linear velocity, no rotation, and two markers
    // at the rear mounts.
    let mut craft = identity_craft();
    let input = held(&[
        PlayerAction::RearRightThruster,
        PlayerAction::RearLeftThruster,
    ]);
    let draws = tick(&mut craft, &input, SECOND);
    assert_eq!(craft.linvel, v(0, 0, -200_000));
    assert_eq!(craft.angvel, v(0, 0, 0));
    assert_eq!(draws.len(), 2);
    assert_eq!(draws[0].thruster.0, PlayerAction::RearRightThruster);
    assert_eq!(draws[0].position, v(300_000, 0, 500_000));
    assert_eq!(draws[1].thruster.0, PlayerAction::RearLeftThruster);
    assert_eq!(draws[1].position, v(-300_000, 0, 500_000));
    assert_eq!(draws[0].radius_micros, 500_000);
    assert_eq!(draws[1].radius_micros, 500_000);
}

#[test]
fn scenario_rear_right_pure_rotation() {
    // Same setup with only the rear right thruster: no translation, and a
    // rotation of up * 0.05.
    let mut craft = identity_craft();
    let input = held(&[PlayerAction::RearRightThruster]);
    let draws = tick(&mut craft, &input, SECOND);
    assert_eq!(craft.linvel, v(0, 0, 0));
    assert_eq!(craft.angvel, v(0, 50_000, 0));
    assert_eq!(draws.len(), 1);
    assert_eq!(draws[0].thruster.0, PlayerAction::RearRightThruster);
    assert_eq!(draws[0].position, v(300_000, 0, 500_000));
}

#[test]
fn every_pair_translates_on_its_axis_without_turning() {
    let cases: [(&[PlayerAction; 2], Vec3); 4] = [
        (
            &[
                PlayerAction::RearRightThruster,
                PlayerAction::RearLeftThruster,
            ],
            v(0, 0, -200_000),
        ),
        (
            &[
                PlayerAction::FrontRightThruster,
                PlayerAction::FrontLeftThruster,
            ],
            v(0, 0, 200_000),
        ),
        (
            &[
                PlayerAction::BottomRightThruster,
                PlayerAction::BottomLeftThruster,
            ],
            v(0, 200_000, 0),
        ),
        (
            &[
                PlayerAction::TopRightThruster,
                PlayerAction::TopLeftThruster,
            ],
            v(0, -200_000, 0),
        ),
    ];
    for (pair, expected_linear) in cases {
        let mut craft = identity_craft();
        let input = held(pair);
        let draws = tick(&mut craft, &input, SECOND);
        assert_eq!(craft.linvel, expected_linear);
        assert_eq!(craft.angvel, v(0, 0, 0));
        assert_eq!(draws.len(), 2);
    }
}

#[test]
fn every_single_thruster_turns_without_translating() {
    // The sign table: rear and front thrusters turn about the up axis,
    // bottom and top thrusters about the forward axis (0, 0, -1).
    let cases: [(PlayerAction, Vec3); 8] = [
        (PlayerAction::RearRightThruster, v(0, 50_000, 0)),
        (PlayerAction::RearLeftThruster, v(0, -50_000, 0)),
        (PlayerAction::FrontRightThruster, v(0, -50_000, 0)),
        (PlayerAction::FrontLeftThruster, v(0, 50_000, 0)),
        (PlayerAction::BottomRightThruster, v(0, 0, -50_000)),
        (PlayerAction::BottomLeftThruster, v(0, 0, 50_000)),
        (PlayerAction::TopRightThruster, v(0, 0, 50_000)),
        (PlayerAction::TopLeftThruster, v(0, 0, -50_000)),
    ];
    for (action, expected_angular) in cases {
        let mut craft = identity_craft();
        let input = held(&[action]);
        let draws = tick(&mut craft, &input, SECOND);
        assert_eq!(craft.linvel, v(0, 0, 0));
        assert_eq!(craft.angvel, expected_angular);
        assert_eq!(draws.len(), 1);
        assert_eq!(draws[0].thruster.0, action);
    }
}

#[test]
fn no_input_changes_nothing() {
    let mut craft = Craft::new(
        v(1_000, 2_000, 3_000),
        v(SCALE, 0, 0),
        v(0, SCALE, 0),
        v(0, 0, -SCALE),
        v(7, 8, 9),
        v(-4, -5, -6),
    );
    let input = InputSnapshot::none_held();
    let draws = tick(&mut craft, &input, SECOND);
    assert_eq!(craft.linvel, v(7, 8, 9));
    assert_eq!(craft.angvel, v(-4, -5, -6));
    assert_eq!(draws.len(), 0);
}

#[test]
fn rotation_of_two_thrusters_is_the_sum_of_singles() {
    let mut combined = identity_craft();
    let both = held(&[
        PlayerAction::RearRightThruster,
        PlayerAction::TopLeftThruster,
    ]);
    tick(&mut combined, &both, SECOND);

    let mut first = identity_craft();
    tick(&mut first, &held(&[PlayerAction::RearRightThruster]), SECOND);
    let mut second = identity_craft();
    tick(&mut second, &held(&[PlayerAction::TopLeftThruster]), SECOND);

    let sum = v(
        first.angvel.x + second.angvel.x,
        first.angvel.y + second.angvel.y,
        first.angvel.z + second.angvel.z,
    );
    assert_eq!(combined.angvel, sum);
    assert_eq!(combined.angvel, v(0, 50_000, -50_000));
    assert_eq!(combined.linvel, v(0, 0, 0));
}

#[test]
fn feedback_lists_every_held_thruster() {
    let actions = [
        PlayerAction::RearLeftThruster,
        PlayerAction::BottomRightThruster,
        PlayerAction::TopLeftThruster,
    ];
    let mut craft = identity_craft();
    let input = held(&actions);
    let draws = tick(&mut craft, &input, SECOND);
    assert_eq!(draws.len(), 3);
    for action in actions {
        let found = draws.iter().filter(|d| d.thruster.0 == action).count();
        assert_eq!(found, 1);
    }
    // Markers stand at the local mounts, since the pose is the identity.
    assert_eq!(draws[0].thruster.0, PlayerAction::RearLeftThruster);
    assert_eq!(draws[0].position, v(-300_000, 0, 500_000));
    assert_eq!(draws[1].thruster.0, PlayerAction::BottomRightThruster);
    assert_eq!(draws[1].position, v(300_000, -1_000_000, 500_000));
    assert_eq!(draws[2].thruster.0, PlayerAction::TopLeftThruster);
    assert_eq!(draws[2].position, v(-300_000, 1_000_000, 500_000));
}

#[test]
fn feedback_follows_the_craft_position() {
    let mut craft = Craft::new(
        v(10 * SCALE, -2 * SCALE, 5 * SCALE),
        v(SCALE, 0, 0),
        v(0, SCALE, 0),
        v(0, 0, -SCALE),
        v(0, 0, 0),
        v(0, 0, 0),
    );
    let input = held(&[PlayerAction::RearRightThruster]);
    let draws = tick(&mut craft, &input, SECOND);
    assert_eq!(draws.len(), 1);
    assert_eq!(
        draws[0].position,
        v(10 * SCALE + 300_000, -2 * SCALE, 5 * SCALE + 500_000)
    );
}

#[test]
fn feedback_follows_the_craft_orientation() {
    // Craft yawed a quarter turn: its forward axis points along world -x,
    // its right axis along world -z. The rear right mount (0.3, 0, 0.5)
    // sits behind the craft (toward world +x) and to its right (toward
    // world -z), at world (0.5, 0, -0.3).
    let mut craft = Craft::new(
        v(0, 0, 0),
        v(0, 0, -SCALE),
        v(0, SCALE, 0),
        v(-SCALE, 0, 0),
        v(0, 0, 0),
        v(0, 0, 0),
    );
    let input = held(&[PlayerAction::RearRightThruster]);
    let draws = tick(&mut craft, &input, SECOND);
    assert_eq!(draws.len(), 1);
    assert_eq!(draws[0].position, v(500_000, 0, -300_000));
    // The rotation still acts about the craft's own up axis.
    assert_eq!(craft.angvel, v(0, 50_000, 0));
}

#[test]
fn velocity_accumulates_across_ticks() {
    let mut craft = identity_craft();
    let input = held(&[
        PlayerAction::RearRightThruster,
        PlayerAction::RearLeftThruster,
    ]);
    tick(&mut craft, &input, SECOND);
    tick(&mut craft, &input, SECOND);
    assert_eq!(craft.linvel, v(0, 0, -400_000));
}

#[test]
fn deltas_scale_with_tick_duration() {
    let mut craft = identity_craft();
    let input = held(&[
        PlayerAction::RearRightThruster,
        PlayerAction::RearLeftThruster,
    ]);
    tick(&mut craft, &input, SECOND / 2);
    assert_eq!(craft.linvel, v(0, 0, -100_000));

    let mut craft2 = identity_craft();
    let input2 = held(&[PlayerAction::RearRightThruster]);
    tick(&mut craft2, &input2, SECOND / 50);
    assert_eq!(craft2.angvel, v(0, 1_000, 0));

    // The longest admitted tick: ten full seconds of the rear pair.
    let mut craft3 = identity_craft();
    let input3 = held(&[
        PlayerAction::RearRightThruster,
        PlayerAction::RearLeftThruster,
    ]);
    tick(&mut craft3, &input3, 10 * SECOND);
    assert_eq!(craft3.linvel, v(0, 0, -2_000_000));
}

#[test]
fn zero_tick_adds_nothing() {
    let mut craft = identity_craft();
    let input = held(&[
        PlayerAction::RearRightThruster,
        PlayerAction::RearLeftThruster,
    ]);
    let draws = tick(&mut craft, &input, 0);
    assert_eq!(craft.linvel, v(0, 0, 0));
    assert_eq!(craft.angvel, v(0, 0, 0));
    // Feedback still marks the held thrusters.
    assert_eq!(draws.len(), 2);
}
