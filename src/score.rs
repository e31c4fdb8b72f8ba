//! Scorekeeping: a death scores for the other player and schedules a
//! delayed reset of the round.
use vstd::prelude::*;

use crate::clash::ClashCounter;
use crate::combat::{PlayerStateChangeEvent, ResetPlayers};
use crate::player::PlayerState;
use crate::timer::Timer;

verus! {

/// Delay between a death and the automatic reset, in microseconds.
pub const RESET_DELAY: u64 = 3_000_000;

/// Both players' scores and the countdown to the next automatic reset.
#[derive(Clone, Copy, Debug, PartialEq, Eq)]
pub struct Points {
    pub player_1: u32,
    pub player_2: u32,
    pub reset_timer: Timer,
}

/// `n` plus one, held at the largest `u32`.
pub open spec fn plus_one(n: u32) -> u32 {
    if n < u32::MAX {
        (n + 1) as u32
    } else {
        n
    }
}

/// Whether every death notified in `changes` names player 1 or player 2.
pub open spec fn deaths_named(changes: Seq<PlayerStateChangeEvent>) -> bool {
    forall|i: int| 0 <= i < changes.len() && (#[trigger] changes[i]).1 is Dead ==> changes[i].0 == 1 || changes[i].0 == 2
}

impl Default for Points {
    fn default() -> (r: Points)
        ensures
            r.wf(),
            r.player_1 == 0,
            r.player_2 == 0,
            r.reset_timer == Timer::new_spec(RESET_DELAY).armed(),
    {
        let mut reset_timer = Timer::new(RESET_DELAY);
        reset_timer.set_elapsed(RESET_DELAY);
        Points { player_1: 0, player_2: 0, reset_timer }
    }
}

impl Points {
    pub open spec fn wf(&self) -> bool {
        self.reset_timer.wf()
    }

    /// The points after one notification: a death scores for the other
    /// player and restarts the reset countdown.
    pub open spec fn noted(self, change: PlayerStateChangeEvent) -> Points {
        if change.1 is Dead {
            Points {
                player_1: if change.0 == 2 { plus_one(self.player_1) } else { self.player_1 },
                player_2: if change.0 == 1 { plus_one(self.player_2) } else { self.player_2 },
                reset_timer: self.reset_timer.restarted(),
            }
        } else {
            self
        }
    }

    /// The points after the notifications, taken in order.
    pub open spec fn noted_all(self, changes: Seq<PlayerStateChangeEvent>) -> Points
        decreases changes.len(),
    {
        if changes.len() == 0 {
            self
        } else {
            self.noted_all(changes.drop_last()).noted(changes.last())
        }
    }

    /// The points after a frame: the countdown advanced, then the
    /// notifications taken.
    pub open spec fn scored(self, changes: Seq<PlayerStateChangeEvent>, delta: u64) -> Points {
        Points { reset_timer: self.reset_timer.ticked(delta), ..self }.noted_all(changes)
    }

    /// Advances the reset countdown by `delta` microseconds and takes this
    /// frame's notifications. Returns the reset signal when the countdown ran
    /// out during this frame.
    pub fn score_point(&mut self, changes: &Vec<PlayerStateChangeEvent>, delta: u64) -> (reset: Option<ResetPlayers>)
        requires
            old(self).wf(),
            deaths_named(changes@),
        ensures
            final(self).wf(),
            *final(self) == old(self).scored(changes@, delta),
            reset is Some <==> old(self).reset_timer.ticked(delta).crossed,
    {
        self.reset_timer.tick(delta);
        let reset = if self.reset_timer.just_finished() {
            Some(ResetPlayers)
        } else {
            None
        };
        let ghost start = *self;
        let mut i: usize = 0;
        while i < changes.len()
            invariant
                i <= changes@.len(),
                deaths_named(changes@),
                self.wf(),
                *self == start.noted_all(changes@.take(i as int)),
            decreases changes@.len() - i,
        {
            proof {
                assert(changes@.take(i as int + 1).drop_last() =~= changes@.take(i as int));
            }
            let change = changes[i];
            if matches!(change.1, PlayerState::Dead) {
                self.reset_timer.reset();
                if change.0 == 1 {
                    if self.player_2 < u32::MAX {
                        self.player_2 = self.player_2 + 1;
                    }
                } else {
                    if self.player_1 < u32::MAX {
                        self.player_1 = self.player_1 + 1;
                    }
                }
            }
            i = i + 1;
        }
        proof {
            assert(changes@.take(changes@.len() as int) =~= changes@);
        }
        reset
    }
}

/// Starts a new match: both scores and the clash counter back to zero, and
/// the players reset.
pub fn reset_points(points: &mut Points, clash_counter: &mut ClashCounter) -> (r: ResetPlayers)
    ensures
        final(points).player_1 == 0,
        final(points).player_2 == 0,
        final(points).reset_timer == old(points).reset_timer,
        final(clash_counter).0 == 0,
{
    points.player_1 = 0;
    points.player_2 = 0;
    clash_counter.clear();
    ResetPlayers
}

} // verus!
