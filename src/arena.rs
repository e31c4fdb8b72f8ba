//! The two combatants together: spawn, the per-frame tick (movement, attack
//! resolution, clash resolution, timer step) and the reset protocol.
use vstd::prelude::*;

use crate::clash::{push_back, push_back_of, saturating_count, ClashCounter, PushBack};
use crate::combat::{
    strike, strike_changes, strike_clash, strike_result, AttackEvent, ClashEvent, PlayerStateChangeEvent,
};
use crate::player::{Bounds, Intent, Player, PlayerState};
use crate::timer::Timer;

verus! {

/// Distance of each starting position from the centre: 300 world units, in
/// position units. Player 1 starts on the left, player 2 on the right.
pub const START_OFFSET: i64 = 300_000_000;

/// What one frame brings: each player's intent, the elapsed time in
/// microseconds, and the playable extent.
#[derive(Clone, Copy, Debug, PartialEq, Eq, Structural)]
pub struct Frame {
    pub one: Intent,
    pub two: Intent,
    pub delta: u64,
    pub bounds: Bounds,
}

/// Everything one frame emits, each list in the order it was produced.
#[derive(Debug)]
pub struct TickReport {
    pub attacks: Vec<AttackEvent>,
    pub clashes: Vec<ClashEvent>,
    pub push_backs: Vec<PushBack>,
    pub state_changes: Vec<PlayerStateChangeEvent>,
}

/// Player 1, player 2 and the match-wide clash counter.
#[derive(Clone, Copy, Debug, PartialEq, Eq)]
pub struct Arena {
    pub one: Player,
    pub two: Player,
    pub clash_counter: ClashCounter,
}

/// Whether a clash names the two players, one each.
pub open spec fn names_both(c: ClashEvent) -> bool {
    (c.0 == 1 && c.1 == 2) || (c.0 == 2 && c.1 == 1)
}

impl Arena {
    pub open spec fn wf(&self) -> bool {
        &&& self.one.wf()
        &&& self.two.wf()
        &&& self.one.player_number == 1
        &&& self.two.player_number == 2
    }

    /// The player with number `id` (player 2 for any number but 1).
    pub open spec fn player(self, id: u8) -> Player {
        if id == 1 {
            self.one
        } else {
            self.two
        }
    }

    /// Both players after this frame's intents.
    pub open spec fn moved(self, frame: Frame) -> Arena {
        Arena {
            one: self.one.after_intent(frame.one, frame.delta, self.clash_counter.0, frame.bounds),
            two: self.two.after_intent(frame.two, frame.delta, self.clash_counter.0, frame.bounds),
            ..self
        }
    }

    /// The attack requests of this frame: player 1's, then player 2's.
    pub open spec fn requests(self, frame: Frame) -> Seq<AttackEvent> {
        (if self.one.attack_allowed(frame.one) {
            seq![AttackEvent(1)]
        } else {
            seq![]
        }) + (if self.two.attack_allowed(frame.two) {
            seq![AttackEvent(2)]
        } else {
            seq![]
        })
    }

    /// The arena after player `id` attacks the other one; no change for a
    /// number that names no player.
    pub open spec fn struck(self, id: u8) -> Arena {
        if id == 1 {
            let (a, d) = strike_result(self.one, self.two);
            Arena { one: a, two: d, ..self }
        } else if id == 2 {
            let (a, d) = strike_result(self.two, self.one);
            Arena { one: d, two: a, ..self }
        } else {
            self
        }
    }

    pub open spec fn struck_changes(self, id: u8) -> Seq<PlayerStateChangeEvent> {
        if id == 1 {
            strike_changes(self.one, self.two)
        } else if id == 2 {
            strike_changes(self.two, self.one)
        } else {
            seq![]
        }
    }

    pub open spec fn struck_clashes(self, id: u8) -> Seq<ClashEvent> {
        let c = if id == 1 {
            strike_clash(self.one, self.two)
        } else if id == 2 {
            strike_clash(self.two, self.one)
        } else {
            None
        };
        match c {
            Some(c) => seq![c],
            None => seq![],
        }
    }

    /// The attack requests resolved one after another, in order: the arena,
    /// the state changes and the clash signals.
    pub open spec fn resolve_all(self, reqs: Seq<AttackEvent>) -> (Arena, Seq<PlayerStateChangeEvent>, Seq<
        ClashEvent,
    >)
        decreases reqs.len(),
    {
        if reqs.len() == 0 {
            (self, seq![], seq![])
        } else {
            let (a, changes, clashes) = self.resolve_all(reqs.drop_last());
            let id: u8 = reqs.last().0;
            (a.struck(id), changes + a.struck_changes(id), clashes + a.struck_clashes(id))
        }
    }

    /// The arena after a clash: one more clash counted if it names both players.
    pub open spec fn after_clash(self, c: ClashEvent) -> Arena {
        if names_both(c) {
            Arena { clash_counter: ClashCounter(saturating_count(self.clash_counter.0, 1)), ..self }
        } else {
            self
        }
    }

    /// The push-backs of a clash: the first named player's, then the other's.
    pub open spec fn clash_push_backs(self, c: ClashEvent) -> Seq<PushBack> {
        if names_both(c) {
            let a = self.player(c.0);
            let b = self.player(c.1);
            seq![push_back_of(c.0, a.position, b.position), push_back_of(c.1, b.position, a.position)]
        } else {
            seq![]
        }
    }

    /// The clash signals resolved in order: the arena and the push-backs.
    pub open spec fn clash_all(self, clashes: Seq<ClashEvent>) -> (Arena, Seq<PushBack>)
        decreases clashes.len(),
    {
        if clashes.len() == 0 {
            (self, seq![])
        } else {
            let (a, push_backs) = self.clash_all(clashes.drop_last());
            (a.after_clash(clashes.last()), push_backs + a.clash_push_backs(clashes.last()))
        }
    }

    /// Both players after the timer step.
    pub open spec fn timed(self, delta: u64) -> Arena {
        Arena { one: self.one.timed(delta), two: self.two.timed(delta), ..self }
    }

    pub open spec fn timed_changes(self, delta: u64) -> Seq<PlayerStateChangeEvent> {
        self.one.timed_changes(delta) + self.two.timed_changes(delta)
    }

    /// The arena after movement and attack resolution of a frame.
    pub open spec fn attacked(self, frame: Frame) -> Arena {
        self.moved(frame).resolve_all(self.requests(frame)).0
    }

    /// The clash signals of a frame.
    pub open spec fn frame_clashes(self, frame: Frame) -> Seq<ClashEvent> {
        self.moved(frame).resolve_all(self.requests(frame)).2
    }

    /// The arena after movement, attack and clash resolution of a frame.
    pub open spec fn clashed(self, frame: Frame) -> Arena {
        self.attacked(frame).clash_all(self.frame_clashes(frame)).0
    }

    /// The push-back requests of a frame.
    pub open spec fn frame_push_backs(self, frame: Frame) -> Seq<PushBack> {
        self.attacked(frame).clash_all(self.frame_clashes(frame)).1
    }

    /// The arena at the end of a frame.
    pub open spec fn ticked(self, frame: Frame) -> Arena {
        self.clashed(frame).timed(frame.delta)
    }

    /// The state changes of a frame, in order.
    pub open spec fn frame_changes(self, frame: Frame) -> Seq<PlayerStateChangeEvent> {
        self.moved(frame).resolve_all(self.requests(frame)).1 + self.clashed(frame).timed_changes(frame.delta)
    }

    /// The arena after a reset: both alive at their starting positions with
    /// the attack cooldown finished; the other timers and the counter kept.
    pub open spec fn reset_spec(self) -> Arena {
        Arena {
            one: Player {
                state: PlayerState::Alive,
                position: (-START_OFFSET) as i64,
                attack_timer: self.one.attack_timer.armed(),
                ..self.one
            },
            two: Player {
                state: PlayerState::Alive,
                position: START_OFFSET,
                attack_timer: self.two.attack_timer.armed(),
                ..self.two
            },
            ..self
        }
    }

    /// Spawns both players at their starting positions, alive, with the
    /// attack cooldown already finished so that the first attack is available.
    pub fn new() -> (r: Arena)
        ensures
            r.wf(),
            r.one.state == PlayerState::Alive,
            r.two.state == PlayerState::Alive,
            r.one.position == -START_OFFSET,
            r.two.position == START_OFFSET,
            r.one.attack_timer == Timer::new_spec(crate::player::ATTACK_COOLDOWN).armed(),
            r.two.attack_timer == Timer::new_spec(crate::player::ATTACK_COOLDOWN).armed(),
            r.one.parry_timer == Timer::new_spec(crate::player::PARRY_WINDOW),
            r.two.parry_timer == Timer::new_spec(crate::player::PARRY_WINDOW),
            r.one.clashing_timer == Timer::new_spec(crate::player::CLASH_RECOVERY),
            r.two.clashing_timer == Timer::new_spec(crate::player::CLASH_RECOVERY),
            r.clash_counter.0 == 0,
    {
        let mut one = Player::new(1, -START_OFFSET);
        let mut two = Player::new(2, START_OFFSET);
        one.attack_timer.set_elapsed(crate::player::ATTACK_COOLDOWN);
        two.attack_timer.set_elapsed(crate::player::ATTACK_COOLDOWN);
        Arena { one, two, clash_counter: ClashCounter(0) }
    }

    /// Applies this frame's intents to both players and returns the attack
    /// requests issued: player 1's, then player 2's.
    pub fn move_players(&mut self, frame: &Frame) -> (attacks: Vec<AttackEvent>)
        requires
            old(self).wf(),
            frame.bounds.wf(),
        ensures
            final(self).wf(),
            *final(self) == old(self).moved(*frame),
            attacks@ == old(self).requests(*frame),
    {
        let clashes: u32 = self.clash_counter.0;
        let mut attacks: Vec<AttackEvent> = Vec::new();
        if self.one.apply_intent(frame.one, frame.delta, clashes, frame.bounds) {
            attacks.push(AttackEvent(1));
        }
        if self.two.apply_intent(frame.two, frame.delta, clashes, frame.bounds) {
            attacks.push(AttackEvent(2));
        }
        proof {
            assert(attacks@ =~= old(self).requests(*frame));
        }
        attacks
    }

    /// Resolves one attack request: updates both players, appends the state
    /// changes to `changes` and returns the clash signal of a parry. A request
    /// that names no player changes nothing.
    pub fn resolve_attack(&mut self, request: AttackEvent, changes: &mut Vec<PlayerStateChangeEvent>) -> (clash:
        Option<ClashEvent>)
        requires
            old(self).wf(),
        ensures
            final(self).wf(),
            *final(self) == old(self).struck(request.0),
            final(self).one.state is Dead <==> old(self).one.state is Dead,
            final(self).two.state is Dead <==> old(self).two.state is Dead,
            final(changes)@ == old(changes)@ + old(self).struck_changes(request.0),
            match clash {
                Some(c) => seq![c],
                None => Seq::<ClashEvent>::empty(),
            } == old(self).struck_clashes(request.0),
    {
        let mut one = self.one;
        let mut two = self.two;
        let clash = if request.0 == 1 {
            strike(&mut one, &mut two, changes)
        } else if request.0 == 2 {
            strike(&mut two, &mut one, changes)
        } else {
            proof {
                assert(changes@ =~= old(changes)@ + old(self).struck_changes(request.0));
            }
            None
        };
        self.one = one;
        self.two = two;
        proof {
            let expected = old(self).struck_clashes(request.0);
            match clash {
                Some(c) => assert(seq![c] =~= expected),
                None => assert(Seq::<ClashEvent>::empty() =~= expected),
            }
        }
        clash
    }

    /// Resolves a clash signal: counts the clash and returns both push-backs.
    /// A signal that does not name both players changes nothing.
    pub fn resolve_clash(&mut self, clash: ClashEvent) -> (push_backs: Vec<PushBack>)
        requires
            old(self).wf(),
        ensures
            final(self).wf(),
            *final(self) == old(self).after_clash(clash),
            push_backs@ == old(self).clash_push_backs(clash),
    {
        let mut push_backs: Vec<PushBack> = Vec::new();
        if (clash.0 == 1 && clash.1 == 2) || (clash.0 == 2 && clash.1 == 1) {
            let (a, b) = if clash.0 == 1 {
                (self.one.position, self.two.position)
            } else {
                (self.two.position, self.one.position)
            };
            push_backs.push(push_back(clash.0, a, b));
            push_backs.push(push_back(clash.1, b, a));
            self.clash_counter.increment();
        }
        proof {
            assert(push_backs@ =~= old(self).clash_push_backs(clash));
        }
        push_backs
    }

    /// Advances both players' timers and applies the timer-driven
    /// transitions, appending their notifications to `changes`.
    pub fn update_timers(&mut self, delta: u64, changes: &mut Vec<PlayerStateChangeEvent>)
        requires
            old(self).wf(),
        ensures
            final(self).wf(),
            *final(self) == old(self).timed(delta),
            final(changes)@ == old(changes)@ + old(self).timed_changes(delta),
    {
        self.one.update_timers(delta, changes);
        self.two.update_timers(delta, changes);
        proof {
            assert(changes@ =~= old(changes)@ + old(self).timed_changes(delta));
        }
    }

    /// Runs one frame: movement and attack requests, attack resolution in
    /// request order, clash resolution, then the timer step.
    pub fn tick(&mut self, frame: Frame) -> (report: TickReport)
        requires
            old(self).wf(),
            frame.bounds.wf(),
        ensures
            final(self).wf(),
            *final(self) == old(self).ticked(frame),
            report.attacks@ == old(self).requests(frame),
            report.clashes@ == old(self).frame_clashes(frame),
            report.push_backs@ == old(self).frame_push_backs(frame),
            report.state_changes@ == old(self).frame_changes(frame),
    {
        let attacks = self.move_players(&frame);
        let ghost moved = *self;
        let mut state_changes: Vec<PlayerStateChangeEvent> = Vec::new();
        let mut clashes: Vec<ClashEvent> = Vec::new();
        let mut i: usize = 0;
        while i < attacks.len()
            invariant
                moved.wf(),
                self.wf(),
                i <= attacks@.len(),
                (*self, state_changes@, clashes@) == moved.resolve_all(attacks@.take(i as int)),
            decreases attacks@.len() - i,
        {
            proof {
                assert(attacks@.take(i as int + 1).drop_last() =~= attacks@.take(i as int));
            }
            let ghost before = clashes@;
            let clash = self.resolve_attack(attacks[i], &mut state_changes);
            match clash {
                Some(c) => {
                    clashes.push(c);
                    proof {
                        assert(clashes@ =~= before + seq![c]);
                    }
                },
                None => {
                    proof {
                        assert(clashes@ =~= before + Seq::<ClashEvent>::empty());
                    }
                },
            }
            i = i + 1;
        }
        proof {
            assert(attacks@.take(attacks@.len() as int) =~= attacks@);
        }
        let ghost attacked = *self;
        let mut push_backs: Vec<PushBack> = Vec::new();
        let mut k: usize = 0;
        while k < clashes.len()
            invariant
                attacked.wf(),
                self.wf(),
                k <= clashes@.len(),
                (*self, push_backs@) == attacked.clash_all(clashes@.take(k as int)),
            decreases clashes@.len() - k,
        {
            proof {
                assert(clashes@.take(k as int + 1).drop_last() =~= clashes@.take(k as int));
            }
            let mut more = self.resolve_clash(clashes[k]);
            push_backs.append(&mut more);
            k = k + 1;
        }
        proof {
            assert(clashes@.take(clashes@.len() as int) =~= clashes@);
        }
        self.update_timers(frame.delta, &mut state_changes);
        TickReport { attacks, clashes, push_backs, state_changes }
    }

    /// Puts both players back: alive, at their starting positions, with the
    /// attack cooldown finished. Returns one notification per player.
    pub fn reset_players(&mut self) -> (changes: Vec<PlayerStateChangeEvent>)
        requires
            old(self).wf(),
        ensures
            final(self).wf(),
            *final(self) == old(self).reset_spec(),
            changes@ == seq![
                PlayerStateChangeEvent(1, PlayerState::Alive),
                PlayerStateChangeEvent(2, PlayerState::Alive),
            ],
    {
        self.one.state = PlayerState::Alive;
        self.one.position = -START_OFFSET;
        self.two.state = PlayerState::Alive;
        self.two.position = START_OFFSET;
        let d1: u64 = self.one.attack_timer.duration;
        self.one.attack_timer.set_elapsed(d1);
        let d2: u64 = self.two.attack_timer.duration;
        self.two.attack_timer.set_elapsed(d2);
        let mut changes: Vec<PlayerStateChangeEvent> = Vec::new();
        changes.push(PlayerStateChangeEvent(1, PlayerState::Alive));
        changes.push(PlayerStateChangeEvent(2, PlayerState::Alive));
        proof {
            assert(changes@ =~= seq![
                PlayerStateChangeEvent(1, PlayerState::Alive),
                PlayerStateChangeEvent(2, PlayerState::Alive),
            ]);
        }
        changes
    }
}

} // verus!
