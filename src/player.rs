//! A single combatant: its state machine, its timers, and how per-frame
//! intent moves it and lets it attack.
use vstd::prelude::*;

use crate::combat::PlayerStateChangeEvent;
use crate::timer::Timer;

verus! {

/// Position units in one world unit. Speeds are in world units per second
/// and time in microseconds, so a step of `speed` for `delta` microseconds
/// covers exactly `speed * delta` position units.
pub const UNIT: i64 = 1_000_000;
/// Cooldown between two attacks of one player, in microseconds.
pub const ATTACK_COOLDOWN: u64 = 1_000_000;
/// Damage window in which a hit player may parry before dying, in microseconds.
pub const PARRY_WINDOW: u64 = 64_000;
/// Time a clash keeps both players locked, in microseconds.
pub const CLASH_RECOVERY: u64 = 1_000_000;
/// Base movement speed, in world units per second.
pub const BASE_SPEED: u64 = 650;
/// Divisor of the base speed while recovering from a missed attack.
pub const WIFF_SLOWDOWN: u64 = 10;

/// The combat state of one player; exactly one holds at any time.
#[derive(Clone, Copy, Debug, PartialEq, Eq, Structural)]
pub enum PlayerState {
    /// Idle and combat-ready.
    Alive,
    /// Out of the round until the players are reset.
    Dead,
    /// Hit; the damage window is running.
    TakingDamage,
    /// Locked after a parry until the clash recovery runs out.
    Clashing,
    /// Missed an attack; movement is throttled until the cooldown ends.
    Wiff,
}

impl Default for PlayerState {
    fn default() -> (r: PlayerState)
        ensures
            r == PlayerState::Alive,
    {
        PlayerState::Alive
    }
}

/// Whether a player in state `s` may move at full speed and attack.
pub open spec fn can_act(s: PlayerState) -> bool {
    s is Alive || s is TakingDamage
}

/// What a player wants to do this frame: the two movement keys held, and
/// whether the attack key went down this frame.
#[derive(Clone, Copy, Debug, PartialEq, Eq, Structural)]
pub struct Intent {
    pub left: bool,
    pub right: bool,
    pub attack: bool,
}

/// The playable horizontal extent; positions are clamped into it.
#[derive(Clone, Copy, Debug, PartialEq, Eq, Structural)]
pub struct Bounds {
    pub min: i64,
    pub max: i64,
}

impl Bounds {
    pub open spec fn wf(&self) -> bool {
        self.min <= self.max
    }
}

pub open spec fn clamp(x: int, lo: int, hi: int) -> int {
    if x < lo {
        lo
    } else if x > hi {
        hi
    } else {
        x
    }
}

/// -1, 0 or 1: the net direction of the movement keys held.
pub open spec fn direction(intent: Intent) -> int {
    (if intent.right { 1int } else { 0int }) - (if intent.left { 1int } else { 0int })
}

/// Distance covered in `delta` microseconds by a player in state `s` while
/// `clashes` clashes have been resolved in the match.
pub open spec fn step_distance(s: PlayerState, delta: u64, clashes: u32) -> int {
    if can_act(s) {
        (BASE_SPEED + clashes) * delta
    } else if s is Wiff {
        BASE_SPEED * delta / (WIFF_SLOWDOWN as int)
    } else {
        0
    }
}

/// How the presentation shows a player.
#[derive(Clone, Copy, Debug, PartialEq, Eq, Structural)]
pub enum Appearance {
    /// A living player whose attack cooldown runs: its colour at half strength.
    Dimmed,
    /// Dead: black, and drawn behind the other player.
    Dark,
    /// Alive and ready: its own colour, and drawn in front.
    Natural,
    /// Clashing: white.
    Flash,
    /// Nothing to change.
    Unchanged,
}

/// The appearance of a player: a running cooldown dims the living, otherwise
/// the state decides.
pub open spec fn appearance_of(p: Player) -> Appearance {
    if !p.attack_timer.is_finished() && !(p.state is Dead) {
        Appearance::Dimmed
    } else {
        match p.state {
            PlayerState::Dead => Appearance::Dark,
            PlayerState::Alive => Appearance::Natural,
            PlayerState::Clashing => Appearance::Flash,
            _ => Appearance::Unchanged,
        }
    }
}

/// One combatant.
#[derive(Clone, Copy, Debug, PartialEq, Eq)]
pub struct Player {
    /// 1 or 2; never changes after spawn.
    pub player_number: u8,
    pub state: PlayerState,
    /// Horizontal position, in millionths of a world unit (see `UNIT`).
    pub position: i64,
    /// Cooldown between attacks; an attack needs it finished.
    pub attack_timer: Timer,
    /// Damage window, restarted when the player is hit.
    pub parry_timer: Timer,
    /// Clash recovery, restarted when the player starts clashing.
    pub clashing_timer: Timer,
}

impl Default for Player {
    fn default() -> (r: Player)
        ensures
            r.wf(),
            r.player_number == 0,
            r.state == PlayerState::Alive,
            r.position == 0,
            r.attack_timer == Timer::new_spec(ATTACK_COOLDOWN),
            r.parry_timer == Timer::new_spec(PARRY_WINDOW),
            r.clashing_timer == Timer::new_spec(CLASH_RECOVERY),
    {
        Player::new(0, 0)
    }
}

impl Player {
    pub open spec fn wf(&self) -> bool {
        &&& self.attack_timer.wf()
        &&& self.parry_timer.wf()
        &&& self.clashing_timer.wf()
        &&& self.attack_timer.duration == ATTACK_COOLDOWN
        &&& self.parry_timer.duration == PARRY_WINDOW
        &&& self.clashing_timer.duration == CLASH_RECOVERY
    }

    /// Where the player stands after this frame's movement.
    pub open spec fn moved_position(self, intent: Intent, delta: u64, clashes: u32, bounds: Bounds) -> int {
        clamp(
            self.position + direction(intent) * step_distance(self.state, delta, clashes),
            bounds.min as int,
            bounds.max as int,
        )
    }

    /// Whether this frame's intent issues an attack request.
    pub open spec fn attack_allowed(self, intent: Intent) -> bool {
        can_act(self.state) && intent.attack && self.attack_timer.is_finished()
    }

    /// The player after this frame's intent: moved, and with the cooldown
    /// restarted when an attack is issued.
    pub open spec fn after_intent(self, intent: Intent, delta: u64, clashes: u32, bounds: Bounds) -> Player {
        Player {
            position: self.moved_position(intent, delta, clashes, bounds) as i64,
            attack_timer: if self.attack_allowed(intent) {
                self.attack_timer.restarted()
            } else {
                self.attack_timer
            },
            ..self
        }
    }

    /// The same player in state `s`.
    pub open spec fn with_state(self, s: PlayerState) -> Player {
        Player { state: s, ..self }
    }

    /// The player entering a clash: clash recovery restarted.
    pub open spec fn clashing(self) -> Player {
        Player { state: PlayerState::Clashing, clashing_timer: self.clashing_timer.restarted(), ..self }
    }

    /// The player just hit: damage window restarted.
    pub open spec fn hurt(self) -> Player {
        Player { state: PlayerState::TakingDamage, parry_timer: self.parry_timer.restarted(), ..self }
    }

    /// Enters a clash and restarts the clash recovery.
    pub fn start_clash(&mut self)
        ensures
            *final(self) == old(self).clashing(),
    {
        self.state = PlayerState::Clashing;
        self.clashing_timer.reset();
    }

    /// Takes a hit and restarts the damage window.
    pub fn take_hit(&mut self)
        ensures
            *final(self) == old(self).hurt(),
    {
        self.state = PlayerState::TakingDamage;
        self.parry_timer.reset();
    }

    /// The player after its timers advance by `delta` and the timer-driven
    /// transitions apply: a damage window that just ran out kills, a finished
    /// cooldown ends a miss, a finished clash recovery ends a clash.
    pub open spec fn timed(self, delta: u64) -> Player {
        let attack = self.attack_timer.ticked(delta);
        let parry = self.parry_timer.ticked(delta);
        let clash = self.clashing_timer.ticked(delta);
        let state = if parry.crossed && self.state is TakingDamage {
            PlayerState::Dead
        } else if attack.is_finished() && self.state is Wiff {
            PlayerState::Alive
        } else if clash.is_finished() && self.state is Clashing {
            PlayerState::Alive
        } else {
            self.state
        };
        Player { state, attack_timer: attack, parry_timer: parry, clashing_timer: clash, ..self }
    }

    /// The notification of the timer step: one when the state changed.
    pub open spec fn timed_changes(self, delta: u64) -> Seq<PlayerStateChangeEvent> {
        let after = self.timed(delta);
        if after.state != self.state {
            seq![PlayerStateChangeEvent(self.player_number, after.state)]
        } else {
            seq![]
        }
    }

    /// A player with fresh timers, standing at `position`.
    pub fn new(player_number: u8, position: i64) -> (r: Player)
        ensures
            r.wf(),
            r.player_number == player_number,
            r.state == PlayerState::Alive,
            r.position == position,
            r.attack_timer == Timer::new_spec(ATTACK_COOLDOWN),
            r.parry_timer == Timer::new_spec(PARRY_WINDOW),
            r.clashing_timer == Timer::new_spec(CLASH_RECOVERY),
    {
        Player {
            player_number,
            state: PlayerState::Alive,
            position,
            attack_timer: Timer::new(ATTACK_COOLDOWN),
            parry_timer: Timer::new(PARRY_WINDOW),
            clashing_timer: Timer::new(CLASH_RECOVERY),
        }
    }

    /// Moves the player by this frame's intent and, where the intent asks for
    /// an attack that the state and the cooldown allow, restarts the cooldown.
    /// Returns whether an attack request is issued.
    pub fn apply_intent(&mut self, intent: Intent, delta: u64, clashes: u32, bounds: Bounds) -> (attacked: bool)
        requires
            old(self).wf(),
            bounds.wf(),
        ensures
            final(self).wf(),
            attacked == old(self).attack_allowed(intent),
            !old(self).attack_timer.is_finished() ==> !attacked,
            final(self).position == old(self).moved_position(intent, delta, clashes, bounds),
            *final(self) == old(self).after_intent(intent, delta, clashes, bounds),
    {
        let full_speed = matches!(self.state, PlayerState::Alive | PlayerState::TakingDamage);
        let speed: u128 = match self.state {
            PlayerState::Alive | PlayerState::TakingDamage => BASE_SPEED as u128 + clashes as u128,
            PlayerState::Wiff => BASE_SPEED as u128,
            _ => 0,
        };
        proof {
            assert(speed * (delta as u128) <= 0x2_0000_0000_0000_0000_0000_0000) by (nonlinear_arith)
                requires
                    speed <= 0x2_0000_0000,
                    delta <= 0xffff_ffff_ffff_ffff,
            ;
        }
        let product: u128 = speed * (delta as u128);
        let distance: u128 = if matches!(self.state, PlayerState::Wiff) {
            product / WIFF_SLOWDOWN as u128
        } else {
            product
        };
        proof {
            assert(distance <= 0x2_0000_0000_0000_0000_0000_0000);
            assert(distance == step_distance(self.state, delta, clashes));
            assert(direction(intent) * distance == (if intent.right { distance as int } else { 0 }) - (
            if intent.left {
                distance as int
            } else {
                0
            })) by (nonlinear_arith);
        }
        let mut target: i128 = self.position as i128;
        if intent.right {
            target = target + distance as i128;
        }
        if intent.left {
            target = target - distance as i128;
        }
        self.position = if target < bounds.min as i128 {
            bounds.min
        } else if target > bounds.max as i128 {
            bounds.max
        } else {
            target as i64
        };
        if full_speed && intent.attack && self.attack_timer.finished() {
            self.attack_timer.reset();
            true
        } else {
            false
        }
    }

    /// Advances the three timers by `delta` and applies the timer-driven
    /// transitions, appending the notification of a change to `changes`.
    pub fn update_timers(&mut self, delta: u64, changes: &mut Vec<PlayerStateChangeEvent>)
        requires
            old(self).wf(),
        ensures
            final(self).wf(),
            *final(self) == old(self).timed(delta),
            final(changes)@ == old(changes)@ + old(self).timed_changes(delta),
    {
        self.parry_timer.tick(delta);
        self.attack_timer.tick(delta);
        self.clashing_timer.tick(delta);
        let before = self.state;
        if self.parry_timer.just_finished() && matches!(self.state, PlayerState::TakingDamage) {
            self.state = PlayerState::Dead;
        } else if self.attack_timer.finished() && matches!(self.state, PlayerState::Wiff) {
            self.state = PlayerState::Alive;
        } else if self.clashing_timer.finished() && matches!(self.state, PlayerState::Clashing) {
            self.state = PlayerState::Alive;
        }
        if self.state != before {
            changes.push(PlayerStateChangeEvent(self.player_number, self.state));
        }
        proof {
            assert(changes@ =~= old(changes)@ + old(self).timed_changes(delta));
        }
    }

    /// How the presentation should show the player now.
    pub fn appearance(&self) -> (r: Appearance)
        ensures
            r == appearance_of(*self),
    {
        if !self.attack_timer.finished() && !matches!(self.state, PlayerState::Dead) {
            Appearance::Dimmed
        } else {
            match self.state {
                PlayerState::Dead => Appearance::Dark,
                PlayerState::Alive => Appearance::Natural,
                PlayerState::Clashing => Appearance::Flash,
                _ => Appearance::Unchanged,
            }
        }
    }
}

} // verus!
