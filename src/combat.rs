//! Attack resolution between an attacker and a defender, and the signals
//! that the combat core hands to its collaborators.
use vstd::prelude::*;

use crate::player::{Player, PlayerState};

verus! {

/// Reach of an attack: it lands when the separation is below 100 world
/// units, given here in position units.
pub const HIT_RANGE: u64 = 100_000_000;

/// A request to attack, tagged with the attacker's player number.
#[derive(Clone, Copy, Debug, PartialEq, Eq, Structural)]
pub struct AttackEvent(pub u8);

/// A notification that a player (by number) entered a new state.
#[derive(Clone, Copy, Debug, PartialEq, Eq, Structural)]
pub struct PlayerStateChangeEvent(pub u8, pub PlayerState);

/// A parry turned into a clash: the parrying player, then the other one.
#[derive(Clone, Copy, Debug, PartialEq, Eq, Structural)]
pub struct ClashEvent(pub u8, pub u8);

/// The signal that puts both players back at their starting positions.
#[derive(Clone, Copy, Debug, PartialEq, Eq, Structural)]
pub struct ResetPlayers;

/// How an attack resolves.
#[derive(Clone, Copy, Debug, PartialEq, Eq, Structural)]
pub enum AttackOutcome {
    /// Nothing changes: the attacker is dead, the defender within reach is
    /// dead, or an attacker that is not taking damage meets a defender that
    /// is already hit or clashing.
    NoEffect,
    /// The attacker was taking damage and countered a living defender in
    /// range: both clash.
    Parry,
    /// The defender is hit and its damage window starts.
    Hit,
    /// The defender is out of range: the attacker misses.
    Whiff,
}

pub open spec fn distance(a: int, b: int) -> int {
    if a < b {
        b - a
    } else {
        a - b
    }
}

/// The outcome of an attack, from both states and the separation.
pub open spec fn attack_outcome(attacker: PlayerState, defender: PlayerState, separation: int) -> AttackOutcome {
    if attacker is Dead {
        AttackOutcome::NoEffect
    } else if separation < HIT_RANGE {
        if defender is Dead {
            AttackOutcome::NoEffect
        } else if attacker is TakingDamage {
            AttackOutcome::Parry
        } else if defender is Alive || defender is Wiff {
            AttackOutcome::Hit
        } else {
            AttackOutcome::NoEffect
        }
    } else {
        AttackOutcome::Whiff
    }
}

/// The outcome of an attack between two players, by their positions.
pub open spec fn outcome_between(attacker: Player, defender: Player) -> AttackOutcome {
    attack_outcome(attacker.state, defender.state, distance(attacker.position as int, defender.position as int))
}

/// The attacker and the defender after the attack.
pub open spec fn strike_result(attacker: Player, defender: Player) -> (Player, Player) {
    match outcome_between(attacker, defender) {
        AttackOutcome::NoEffect => (attacker, defender),
        AttackOutcome::Parry => (attacker.clashing(), defender.clashing()),
        AttackOutcome::Hit => (attacker, defender.hurt()),
        AttackOutcome::Whiff => (attacker.with_state(PlayerState::Wiff), defender),
    }
}

/// The state changes that the attack notifies, in order.
pub open spec fn strike_changes(attacker: Player, defender: Player) -> Seq<PlayerStateChangeEvent> {
    match outcome_between(attacker, defender) {
        AttackOutcome::NoEffect => seq![],
        AttackOutcome::Parry => seq![
            PlayerStateChangeEvent(attacker.player_number, PlayerState::Clashing),
            PlayerStateChangeEvent(defender.player_number, PlayerState::Clashing),
        ],
        AttackOutcome::Hit => seq![PlayerStateChangeEvent(defender.player_number, PlayerState::TakingDamage)],
        AttackOutcome::Whiff => seq![PlayerStateChangeEvent(attacker.player_number, PlayerState::Wiff)],
    }
}

/// The clash signal that the attack emits, if it was a parry.
pub open spec fn strike_clash(attacker: Player, defender: Player) -> Option<ClashEvent> {
    if outcome_between(attacker, defender) is Parry {
        Some(ClashEvent(attacker.player_number, defender.player_number))
    } else {
        None
    }
}

/// Absolute separation of two positions.
pub fn separation(a: i64, b: i64) -> (r: u64)
    ensures
        r == distance(a as int, b as int),
{
    if a < b {
        (b as i128 - a as i128) as u64
    } else {
        (a as i128 - b as i128) as u64
    }
}

/// Decides how an attack resolves.
pub fn classify_attack(attacker: PlayerState, defender: PlayerState, separation: u64) -> (r: AttackOutcome)
    ensures
        r == attack_outcome(attacker, defender, separation as int),
{
    if matches!(attacker, PlayerState::Dead) {
        AttackOutcome::NoEffect
    } else if separation < HIT_RANGE {
        if matches!(defender, PlayerState::Dead) {
            AttackOutcome::NoEffect
        } else if matches!(attacker, PlayerState::TakingDamage) {
            AttackOutcome::Parry
        } else if matches!(defender, PlayerState::Alive | PlayerState::Wiff) {
            AttackOutcome::Hit
        } else {
            AttackOutcome::NoEffect
        }
    } else {
        AttackOutcome::Whiff
    }
}

/// Resolves an attack of `attacker` on `defender`: updates both, appends the
/// state changes to `changes`, and returns the clash signal of a parry.
pub fn strike(attacker: &mut Player, defender: &mut Player, changes: &mut Vec<PlayerStateChangeEvent>) -> (clash: Option<ClashEvent>)
    ensures
        (*final(attacker), *final(defender)) == strike_result(*old(attacker), *old(defender)),
        final(changes)@ == old(changes)@ + strike_changes(*old(attacker), *old(defender)),
        clash == strike_clash(*old(attacker), *old(defender)),
{
    let gap: u64 = separation(attacker.position, defender.position);
    match classify_attack(attacker.state, defender.state, gap) {
        AttackOutcome::NoEffect => {
            proof {
                assert(changes@ =~= old(changes)@ + strike_changes(*old(attacker), *old(defender)));
            }
            None
        },
        AttackOutcome::Parry => {
            attacker.start_clash();
            defender.start_clash();
            changes.push(PlayerStateChangeEvent(attacker.player_number, PlayerState::Clashing));
            changes.push(PlayerStateChangeEvent(defender.player_number, PlayerState::Clashing));
            proof {
                assert(changes@ =~= old(changes)@ + strike_changes(*old(attacker), *old(defender)));
            }
            Some(ClashEvent(attacker.player_number, defender.player_number))
        },
        AttackOutcome::Hit => {
            defender.take_hit();
            changes.push(PlayerStateChangeEvent(defender.player_number, PlayerState::TakingDamage));
            proof {
                assert(changes@ =~= old(changes)@ + strike_changes(*old(attacker), *old(defender)));
            }
            None
        },
        AttackOutcome::Whiff => {
            attacker.state = PlayerState::Wiff;
            changes.push(PlayerStateChangeEvent(attacker.player_number, PlayerState::Wiff));
            proof {
                assert(changes@ =~= old(changes)@ + strike_changes(*old(attacker), *old(defender)));
            }
            None
        },
    }
}

} // verus!
