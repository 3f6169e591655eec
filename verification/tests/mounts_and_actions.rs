use thrusters::action::PlayerAction;
use thrusters::craft::MountTable;
use thrusters::vec3::Vec3;

fn v(x: i64, y: i64, z: i64) -> Vec3 {
    Vec3 { x, y, z }
}

#[test]
fn thruster_iterator_yields_all_eight_once() {
    let ts = PlayerAction::thruster_iterator();
    assert_eq!(ts.len(), 8);
    for i in 0..8 {
        for j in 0..8 {
            if i != j {
                assert_ne!(ts[i], ts[j]);
            }
        }
    }
    assert_eq!(ts[0], PlayerAction::RearRightThruster);
    assert_eq!(ts[1], PlayerAction::RearLeftThruster);
    assert_eq!(ts[2], PlayerAction::FrontRightThruster);
    assert_eq!(ts[3], PlayerAction::FrontLeftThruster);
    assert_eq!(ts[4], PlayerAction::BottomRightThruster);
    assert_eq!(ts[5], PlayerAction::BottomLeftThruster);
    assert_eq!(ts[6], PlayerAction::TopRightThruster);
    assert_eq!(ts[7], PlayerAction::TopLeftThruster);
}

#[test]
fn mounts_hold_the_fixed_offsets() {
    let m = MountTable::new();
    assert_eq!(m.offset(PlayerAction::RearRightThruster), v(300_000, 0, 500_000));
    assert_eq!(m.offset(PlayerAction::RearLeftThruster), v(-300_000, 0, 500_000));
    assert_eq!(m.offset(PlayerAction::FrontRightThruster), v(300_000, 0, -500_000));
    assert_eq!(m.offset(PlayerAction::FrontLeftThruster), v(-300_000, 0, -500_000));
    assert_eq!(m.offset(PlayerAction::BottomRightThruster), v(300_000, -1_000_000, 500_000));
    assert_eq!(m.offset(PlayerAction::BottomLeftThruster), v(-300_000, -1_000_000, 500_000));
    assert_eq!(m.offset(PlayerAction::TopRightThruster), v(300_000, 1_000_000, 500_000));
    assert_eq!(m.offset(PlayerAction::TopLeftThruster), v(-300_000, 1_000_000, 500_000));
}

#[test]
fn mounts_mirror_left_to_right() {
    let m = MountTable::new();
    let pairs = [
        (PlayerAction::RearRightThruster, PlayerAction::RearLeftThruster),
        (PlayerAction::FrontRightThruster, PlayerAction::FrontLeftThruster),
        (PlayerAction::BottomRightThruster, PlayerAction::BottomLeftThruster),
        (PlayerAction::TopRightThruster, PlayerAction::TopLeftThruster),
    ];
    for (right, left) in pairs {
        let r = m.offset(right);
        let l = m.offset(left);
        assert_eq!(r.x, -l.x);
        assert_eq!(r.y, l.y);
        assert_eq!(r.z, l.z);
    }
}
