use vstd::prelude::*;

verus! {

/// The eight thruster actions a player can hold, one per thruster mounted on
/// the craft. The set is closed: every tick each action is either held or
/// not, and nothing else can be asked of the input layer.
#[derive(Clone, Copy, PartialEq, Eq, Structural, Hash, Debug, Default)]
pub enum PlayerAction {
    #[default]
    RearRightThruster,
    RearLeftThruster,
    FrontRightThruster,
    FrontLeftThruster,
    BottomRightThruster,
    BottomLeftThruster,
    TopRightThruster,
    TopLeftThruster,
}

/// The canonical enumeration order of the eight thrusters; indices outside
/// the range fall back to the first thruster.
pub open spec fn thruster_at(k: int) -> PlayerAction {
    if k == 1 {
        PlayerAction::RearLeftThruster
    } else if k == 2 {
        PlayerAction::FrontRightThruster
    } else if k == 3 {
        PlayerAction::FrontLeftThruster
    } else if k == 4 {
        PlayerAction::BottomRightThruster
    } else if k == 5 {
        PlayerAction::BottomLeftThruster
    } else if k == 6 {
        PlayerAction::TopRightThruster
    } else if k == 7 {
        PlayerAction::TopLeftThruster
    } else {
        PlayerAction::RearRightThruster
    }
}

/// The index of a thruster in the canonical enumeration order.
pub open spec fn thruster_index(t: PlayerAction) -> int {
    match t {
        PlayerAction::RearRightThruster => 0,
        PlayerAction::RearLeftThruster => 1,
        PlayerAction::FrontRightThruster => 2,
        PlayerAction::FrontLeftThruster => 3,
        PlayerAction::BottomRightThruster => 4,
        PlayerAction::BottomLeftThruster => 5,
        PlayerAction::TopRightThruster => 6,
        PlayerAction::TopLeftThruster => 7,
    }
}

/// Each thruster stands at exactly one place in the canonical order.
pub proof fn lemma_thruster_order_bijective()
    ensures
        forall|t: PlayerAction| 0 <= #[trigger] thruster_index(t) < 8,
        forall|t: PlayerAction| thruster_at(#[trigger] thruster_index(t)) == t,
        forall|k: int| 0 <= k < 8 ==> thruster_index(#[trigger] thruster_at(k)) == k,
{
}

/// The thruster whose firing opposes `t`'s rotation: its mirror across the
/// craft's left/right axis. Holding a full pair cancels rotation and leaves
/// pure translation.
pub open spec fn pair_partner(t: PlayerAction) -> PlayerAction {
    match t {
        PlayerAction::RearRightThruster => PlayerAction::RearLeftThruster,
        PlayerAction::RearLeftThruster => PlayerAction::RearRightThruster,
        PlayerAction::FrontRightThruster => PlayerAction::FrontLeftThruster,
        PlayerAction::FrontLeftThruster => PlayerAction::FrontRightThruster,
        PlayerAction::BottomRightThruster => PlayerAction::BottomLeftThruster,
        PlayerAction::BottomLeftThruster => PlayerAction::BottomRightThruster,
        PlayerAction::TopRightThruster => PlayerAction::TopLeftThruster,
        PlayerAction::TopLeftThruster => PlayerAction::TopRightThruster,
    }
}

/// Whether a lone held `t` rotates the craft about its up axis; the other
/// four thrusters rotate it about the forward axis.
pub open spec fn rotates_about_up(t: PlayerAction) -> bool {
    match t {
        PlayerAction::RearRightThruster => true,
        PlayerAction::RearLeftThruster => true,
        PlayerAction::FrontRightThruster => true,
        PlayerAction::FrontLeftThruster => true,
        PlayerAction::BottomRightThruster => false,
        PlayerAction::BottomLeftThruster => false,
        PlayerAction::TopRightThruster => false,
        PlayerAction::TopLeftThruster => false,
    }
}

/// The sign of the rotation a lone held `t` contributes about its axis.
pub open spec fn rotation_sign(t: PlayerAction) -> int {
    match t {
        PlayerAction::RearRightThruster => 1,
        PlayerAction::RearLeftThruster => -1,
        PlayerAction::FrontRightThruster => -1,
        PlayerAction::FrontLeftThruster => 1,
        PlayerAction::BottomRightThruster => 1,
        PlayerAction::BottomLeftThruster => -1,
        PlayerAction::TopRightThruster => -1,
        PlayerAction::TopLeftThruster => 1,
    }
}

/// Pair partners rotate about the same axis with opposite signs, which is
/// what makes a fully held pair translate without turning.
pub proof fn lemma_pair_rotation_opposes()
    ensures
        forall|t: PlayerAction| rotates_about_up(#[trigger] pair_partner(t)) == rotates_about_up(t),
        forall|t: PlayerAction| rotation_sign(#[trigger] pair_partner(t)) == -rotation_sign(t),
        forall|t: PlayerAction| pair_partner(t) != t,
        forall|t: PlayerAction| pair_partner(#[trigger] pair_partner(t)) == t,
{
}

impl PlayerAction {
    /// All eight thrusters, each exactly once, in the canonical order; the
    /// per-tick feedback pass walks this list.
    pub fn thruster_iterator() -> (ts: Vec<PlayerAction>)
        ensures
            ts@.len() == 8,
            forall|k: int| 0 <= k < 8 ==> ts@[k] == thruster_at(k),
    {
        let ts: Vec<PlayerAction> = vec![
            PlayerAction::RearRightThruster,
            PlayerAction::RearLeftThruster,
            PlayerAction::FrontRightThruster,
            PlayerAction::FrontLeftThruster,
            PlayerAction::BottomRightThruster,
            PlayerAction::BottomLeftThruster,
            PlayerAction::TopRightThruster,
            PlayerAction::TopLeftThruster,
        ];
        proof {
            assert(ts@[0] == thruster_at(0));
            assert(ts@[1] == thruster_at(1));
            assert(ts@[2] == thruster_at(2));
            assert(ts@[3] == thruster_at(3));
            assert(ts@[4] == thruster_at(4));
            assert(ts@[5] == thruster_at(5));
            assert(ts@[6] == thruster_at(6));
            assert(ts@[7] == thruster_at(7));
        }
        ts
    }
}

/// The four opposing thruster pairs, each of which translates the craft when
/// both members are held in the same tick.
#[derive(Clone, Copy, PartialEq, Eq, Structural, Debug)]
pub enum ThrusterPair {
    Rear,
    Front,
    Bottom,
    Top,
}

/// The right-side member of a pair.
pub open spec fn pair_first(p: ThrusterPair) -> PlayerAction {
    match p {
        ThrusterPair::Rear => PlayerAction::RearRightThruster,
        ThrusterPair::Front => PlayerAction::FrontRightThruster,
        ThrusterPair::Bottom => PlayerAction::BottomRightThruster,
        ThrusterPair::Top => PlayerAction::TopRightThruster,
    }
}

/// The left-side member of a pair.
pub open spec fn pair_second(p: ThrusterPair) -> PlayerAction {
    match p {
        ThrusterPair::Rear => PlayerAction::RearLeftThruster,
        ThrusterPair::Front => PlayerAction::FrontLeftThruster,
        ThrusterPair::Bottom => PlayerAction::BottomLeftThruster,
        ThrusterPair::Top => PlayerAction::TopLeftThruster,
    }
}

/// Whether a pair translates along the craft's up axis; the rear and front
/// pairs translate along the forward axis instead.
pub open spec fn pair_along_up(p: ThrusterPair) -> bool {
    match p {
        ThrusterPair::Rear => false,
        ThrusterPair::Front => false,
        ThrusterPair::Bottom => true,
        ThrusterPair::Top => true,
    }
}

/// The sign of the translation a fully held pair contributes along its axis:
/// the rear pair pushes forward, the bottom pair up, and their opposites
/// pull back and down.
pub open spec fn pair_sign(p: ThrusterPair) -> int {
    match p {
        ThrusterPair::Rear => 1,
        ThrusterPair::Front => -1,
        ThrusterPair::Bottom => 1,
        ThrusterPair::Top => -1,
    }
}

/// The two members of each pair are partners, and the four pairs cover all
/// eight thrusters.
pub proof fn lemma_pairs_partition()
    ensures
        forall|p: ThrusterPair| pair_partner(#[trigger] pair_first(p)) == pair_second(p),
        forall|p: ThrusterPair| pair_partner(#[trigger] pair_second(p)) == pair_first(p),
        forall|p: ThrusterPair, q: ThrusterPair|
            p != q ==> #[trigger] pair_first(p) != #[trigger] pair_first(q)
                && pair_first(p) != pair_second(q) && pair_second(p) != pair_second(q),
{
}

/// Marker for the one entity the player controls; decoration bodies in the
/// same world never carry it.
#[derive(Clone, Copy, Debug)]
pub struct Player;

/// Tag carried by a mount entity, naming the thruster that fires there.
#[derive(Clone, Copy, PartialEq, Eq, Structural, Debug)]
pub struct Thruster(pub PlayerAction);

} // verus!
