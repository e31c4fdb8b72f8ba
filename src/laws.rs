//! Properties of the combat core that span several calls or every state.
use vstd::prelude::*;

use crate::arena::{Arena, Frame, START_OFFSET};
use crate::combat::{distance, AttackEvent, PlayerStateChangeEvent, HIT_RANGE};
use crate::player::{Player, PlayerState};
use crate::timer::Timer;

verus! {

/// Both players clash, with equal clash recovery, standing within reach.
pub open spec fn locked_in_clash(a: Arena) -> bool {
    &&& a.one.state is Clashing
    &&& a.two.state is Clashing
    &&& a.one.clashing_timer == a.two.clashing_timer
    &&& distance(a.one.position as int, a.two.position as int) < HIT_RANGE
}

/// Whether some player is clashing in `after` but was not in `before`.
pub open spec fn clash_began(before: Arena, after: Arena) -> bool {
    (after.one.state is Clashing && !(before.one.state is Clashing)) || (after.two.state is Clashing
        && !(before.two.state is Clashing))
}

/// Sum of successive frame times.
pub open spec fn total_time(deltas: Seq<u64>) -> int
    decreases deltas.len(),
{
    if deltas.len() == 0 {
        0
    } else {
        total_time(deltas.drop_last()) + deltas.last()
    }
}

/// A player after successive timer steps.
pub open spec fn timed_run(p: Player, deltas: Seq<u64>) -> Player
    decreases deltas.len(),
{
    if deltas.len() == 0 {
        p
    } else {
        timed_run(p, deltas.drop_last()).timed(deltas.last())
    }
}

/// The notifications of successive timer steps, in order.
pub open spec fn timed_run_changes(p: Player, deltas: Seq<u64>) -> Seq<PlayerStateChangeEvent>
    decreases deltas.len(),
{
    if deltas.len() == 0 {
        seq![]
    } else {
        timed_run_changes(p, deltas.drop_last()) + timed_run(p, deltas.drop_last()).timed_changes(deltas.last())
    }
}

/// The arena after successive frames.
pub open spec fn run(a: Arena, frames: Seq<Frame>) -> Arena
    decreases frames.len(),
{
    if frames.len() == 0 {
        a
    } else {
        run(a, frames.drop_last()).ticked(frames.last())
    }
}

/// The attack requests of successive frames, in order.
pub open spec fn run_requests(a: Arena, frames: Seq<Frame>) -> Seq<AttackEvent>
    decreases frames.len(),
{
    if frames.len() == 0 {
        seq![]
    } else {
        run_requests(a, frames.drop_last()) + run(a, frames.drop_last()).requests(frames.last())
    }
}

/// Sum of the times of successive frames.
pub open spec fn frame_time(frames: Seq<Frame>) -> int
    decreases frames.len(),
{
    if frames.len() == 0 {
        0
    } else {
        frame_time(frames.drop_last()) + frames.last().delta
    }
}

/// A player is always in exactly one of the five states.
pub proof fn law_one_state(s: PlayerState)
    ensures
        (s is Alive) || (s is Dead) || (s is TakingDamage) || (s is Clashing) || (s is Wiff),
        (if s is Alive { 1int } else { 0 }) + (if s is Dead { 1int } else { 0 }) + (if s is TakingDamage {
            1int
        } else {
            0
        }) + (if s is Clashing { 1int } else { 0 }) + (if s is Wiff { 1int } else { 0 }) == 1,
{
}

/// A timer crosses its duration on one tick only: once a tick has crossed
/// it, the timer stays finished and no later tick crosses again until it is
/// reset.
pub proof fn law_timer_crosses_once(t: Timer, first: u64, later: u64)
    requires
        t.wf(),
    ensures
        t.ticked(first).crossed ==> t.ticked(first).is_finished(),
        t.ticked(first).is_finished() ==> t.ticked(first).ticked(later).is_finished(),
        t.ticked(first).is_finished() ==> !t.ticked(first).ticked(later).crossed,
{
}

/// Attack resolution never moves a player, and never counts a clash.
proof fn lemma_resolve_keeps_places(m: Arena, reqs: Seq<AttackEvent>)
    ensures
        m.resolve_all(reqs).0.one.position == m.one.position,
        m.resolve_all(reqs).0.two.position == m.two.position,
        m.resolve_all(reqs).0.one.player_number == m.one.player_number,
        m.resolve_all(reqs).0.two.player_number == m.two.player_number,
        m.resolve_all(reqs).0.clash_counter == m.clash_counter,
        m.resolve_all(reqs).0.one.attack_timer == m.one.attack_timer,
        m.resolve_all(reqs).0.two.attack_timer == m.two.attack_timer,
    decreases reqs.len(),
{
    if reqs.len() > 0 {
        lemma_resolve_keeps_places(m, reqs.drop_last());
    }
}

/// Once attack resolution makes a player clash who was not clashing, both
/// players are locked in the clash.
proof fn lemma_resolve_pairs_clash(m: Arena, reqs: Seq<AttackEvent>)
    requires
        m.wf(),
    ensures
        m.resolve_all(reqs).0.wf(),
        clash_began(m, m.resolve_all(reqs).0) ==> locked_in_clash(m.resolve_all(reqs).0),
    decreases reqs.len(),
{
    if reqs.len() > 0 {
        lemma_resolve_pairs_clash(m, reqs.drop_last());
        lemma_resolve_keeps_places(m, reqs.drop_last());
    }
}

/// Clash resolution moves no player and changes no state.
proof fn lemma_clash_keeps_players(a: Arena, clashes: Seq<crate::combat::ClashEvent>)
    ensures
        a.clash_all(clashes).0.one == a.one,
        a.clash_all(clashes).0.two == a.two,
    decreases clashes.len(),
{
    if clashes.len() > 0 {
        lemma_clash_keeps_players(a, clashes.drop_last());
    }
}

/// Clashes come in pairs: whenever a frame leaves one player clashing who
/// was not clashing before it, the other player is clashing too.
pub proof fn law_clash_in_pairs(a: Arena, frame: Frame)
    requires
        a.wf(),
        frame.bounds.wf(),
    ensures
        a.ticked(frame).one.state is Clashing && !(a.one.state is Clashing) ==> a.ticked(frame).two.state is Clashing,
        a.ticked(frame).two.state is Clashing && !(a.two.state is Clashing) ==> a.ticked(frame).one.state is Clashing,
{
    let m = a.moved(frame);
    let reqs = a.requests(frame);
    lemma_resolve_pairs_clash(m, reqs);
    let r = a.attacked(frame);
    lemma_clash_keeps_players(r, a.frame_clashes(frame));
}

/// Attack resolution neither kills nor revives.
proof fn lemma_resolve_keeps_deaths(m: Arena, reqs: Seq<AttackEvent>)
    ensures
        m.resolve_all(reqs).0.one.state is Dead <==> m.one.state is Dead,
        m.resolve_all(reqs).0.two.state is Dead <==> m.two.state is Dead,
    decreases reqs.len(),
{
    if reqs.len() > 0 {
        lemma_resolve_keeps_deaths(m, reqs.drop_last());
    }
}

/// Death comes only from the damage window: a player dies in a frame only
/// when it was taking damage at the timer step and its damage window ran
/// out in that step. No frame brings a dead player back; only a reset does.
pub proof fn law_death_only_from_damage(a: Arena, frame: Frame)
    requires
        a.wf(),
        frame.bounds.wf(),
    ensures
        a.one.state is Dead ==> a.ticked(frame).one.state is Dead,
        a.two.state is Dead ==> a.ticked(frame).two.state is Dead,
        a.ticked(frame).one.state is Dead && !(a.one.state is Dead) ==> a.clashed(frame).one.state is TakingDamage
            && a.ticked(frame).one.parry_timer.crossed,
        a.ticked(frame).two.state is Dead && !(a.two.state is Dead) ==> a.clashed(frame).two.state is TakingDamage
            && a.ticked(frame).two.parry_timer.crossed,
{
    let m = a.moved(frame);
    lemma_resolve_keeps_deaths(m, a.requests(frame));
    lemma_clash_keeps_players(a.attacked(frame), a.frame_clashes(frame));
}

/// A reset puts both players back alive at mirrored starting positions,
/// ready to attack, whatever they were doing before (dead included).
pub proof fn law_reset_restores(a: Arena)
    requires
        a.wf(),
    ensures
        a.reset_spec().wf(),
        a.reset_spec().one.state is Alive,
        a.reset_spec().two.state is Alive,
        a.reset_spec().one.position == -START_OFFSET,
        a.reset_spec().two.position == START_OFFSET,
        a.reset_spec().one.position == -a.reset_spec().two.position,
        a.reset_spec().one.attack_timer.is_finished(),
        a.reset_spec().two.attack_timer.is_finished(),
{
}

/// While a player's attack cooldown runs, no frame issues an attack request
/// for it, whatever its intent.
pub proof fn law_no_attack_in_cooldown(a: Arena, frame: Frame)
    ensures
        !a.one.attack_timer.is_finished() ==> !a.requests(frame).contains(AttackEvent(1)),
        !a.two.attack_timer.is_finished() ==> !a.requests(frame).contains(AttackEvent(2)),
{
    let reqs = a.requests(frame);
    if !a.one.attack_timer.is_finished() && reqs.contains(AttackEvent(1)) {
        let i = choose|i: int| 0 <= i < reqs.len() && reqs[i] == AttackEvent(1);
        assert(reqs[i] == AttackEvent(1));
    }
    if !a.two.attack_timer.is_finished() && reqs.contains(AttackEvent(2)) {
        let i = choose|i: int| 0 <= i < reqs.len() && reqs[i] == AttackEvent(2);
        assert(reqs[i] == AttackEvent(2));
    }
}

/// A frame leaves a running cooldown alone but for its timer step, and
/// issues no attack request for that player.
proof fn lemma_frame_keeps_cooldown(a: Arena, frame: Frame, id: u8)
    requires
        id == 1 || id == 2,
        !a.player(id).attack_timer.is_finished(),
    ensures
        a.ticked(frame).player(id).attack_timer == a.player(id).attack_timer.ticked(frame.delta),
        !a.requests(frame).contains(AttackEvent(id)),
{
    let m = a.moved(frame);
    lemma_resolve_keeps_places(m, a.requests(frame));
    lemma_clash_keeps_players(a.attacked(frame), a.frame_clashes(frame));
    law_no_attack_in_cooldown(a, frame);
}

/// Neither of two request lists holds `x`, so their concatenation does not.
proof fn lemma_concat_lacks(s1: Seq<AttackEvent>, s2: Seq<AttackEvent>, x: AttackEvent)
    requires
        !s1.contains(x),
        !s2.contains(x),
    ensures
        !(s1 + s2).contains(x),
{
    if (s1 + s2).contains(x) {
        let i = choose|i: int| 0 <= i < (s1 + s2).len() && (s1 + s2)[i] == x;
        if i < s1.len() {
            assert(s1[i] == x);
        } else {
            assert(s2[i - s1.len()] == x);
        }
    }
}

/// While the frames' time stays below what is left of a cooldown, the
/// cooldown only accumulates that time and no frame requests an attack.
proof fn lemma_cooldown_run(a: Arena, frames: Seq<Frame>, id: u8)
    requires
        id == 1 || id == 2,
        a.player(id).attack_timer.elapsed + frame_time(frames) < a.player(id).attack_timer.duration,
    ensures
        run(a, frames).player(id).attack_timer.duration == a.player(id).attack_timer.duration,
        run(a, frames).player(id).attack_timer.elapsed == a.player(id).attack_timer.elapsed + frame_time(frames),
        !run_requests(a, frames).contains(AttackEvent(id)),
    decreases frames.len(),
{
    if frames.len() > 0 {
        let prev = frames.drop_last();
        lemma_cooldown_run(a, prev, id);
        lemma_frame_keeps_cooldown(run(a, prev), frames.last(), id);
        lemma_concat_lacks(run_requests(a, prev), run(a, prev).requests(frames.last()), AttackEvent(id));
    }
}

/// Presses during a running cooldown are ignored, not queued: over any
/// number of successive frames, as long as the time before the last frame
/// leaves a player's cooldown unfinished, none of the frames issues an
/// attack request for that player, whatever the intents.
pub proof fn law_cooldown_ignores_presses(a: Arena, frames: Seq<Frame>, id: u8)
    requires
        id == 1 || id == 2,
        frames.len() > 0,
        a.player(id).attack_timer.elapsed + frame_time(frames.drop_last()) < a.player(id).attack_timer.duration,
    ensures
        !run_requests(a, frames).contains(AttackEvent(id)),
{
    let prev = frames.drop_last();
    lemma_cooldown_run(a, prev, id);
    lemma_frame_keeps_cooldown(run(a, prev), frames.last(), id);
    lemma_concat_lacks(run_requests(a, prev), run(a, prev).requests(frames.last()), AttackEvent(id));
}

/// Successive timer steps of a player taking damage: below the window it
/// keeps taking damage with the time accumulated and says nothing; from the
/// step that reaches the window on it is dead, and the death is its one
/// notification. Only the reaching step crosses the window.
proof fn lemma_damage_window(p: Player, deltas: Seq<u64>)
    requires
        p.state is TakingDamage,
        !p.parry_timer.is_finished(),
    ensures
        ({
            let q = timed_run(p, deltas);
            let t = p.parry_timer.elapsed + total_time(deltas);
            &&& q.parry_timer.duration == p.parry_timer.duration
            &&& q.player_number == p.player_number
            &&& t < p.parry_timer.duration ==> {
                &&& q.state is TakingDamage
                &&& q.parry_timer.elapsed == t
                &&& timed_run_changes(p, deltas) == Seq::<PlayerStateChangeEvent>::empty()
                &&& deltas.len() > 0 ==> !q.parry_timer.crossed
            }
            &&& t >= p.parry_timer.duration ==> {
                &&& q.state is Dead
                &&& q.parry_timer.is_finished()
                &&& timed_run_changes(p, deltas) == seq![PlayerStateChangeEvent(p.player_number, PlayerState::Dead)]
                &&& q.parry_timer.crossed <==> (deltas.len() > 0 && p.parry_timer.elapsed + total_time(
                    deltas.drop_last(),
                ) < p.parry_timer.duration)
            }
        }),
    decreases deltas.len(),
{
    if deltas.len() > 0 {
        let prev = deltas.drop_last();
        lemma_damage_window(p, prev);
        let q = timed_run(p, prev);
        let d = deltas.last();
        let t = p.parry_timer.elapsed + total_time(prev);
        assert(timed_run(p, deltas) == q.timed(d));
        assert(total_time(deltas) == t - p.parry_timer.elapsed + d);
        if t < p.parry_timer.duration {
            assert(q.parry_timer.ticked(d).crossed == (t + d >= p.parry_timer.duration));
            if t + d >= p.parry_timer.duration {
                assert(q.timed(d).state is Dead);
                assert(q.timed_changes(d) =~= seq![PlayerStateChangeEvent(p.player_number, PlayerState::Dead)]);
            } else {
                assert(q.timed(d).state is TakingDamage);
                assert(q.timed_changes(d) =~= Seq::<PlayerStateChangeEvent>::empty());
            }
            assert(timed_run_changes(p, prev) + q.timed_changes(deltas.last()) =~= q.timed_changes(deltas.last()));
        } else {
            assert(q.timed(d).state is Dead);
            assert(q.timed_changes(d) =~= Seq::<PlayerStateChangeEvent>::empty());
            assert(timed_run_changes(p, prev) + q.timed_changes(deltas.last()) =~= timed_run_changes(p, prev));
        }
    }
}

/// A damage window that runs out kills exactly once. Over any number of
/// successive timer steps of a player taking damage with no parry or reset
/// in between: after each step whose accumulated time is below the window
/// the player is still taking damage, after each later step it is dead;
/// the window is crossed on the one step that reaches it; and the only
/// notification over all the steps is that single death.
pub proof fn law_damage_window_kills_once(p: Player, deltas: Seq<u64>)
    requires
        p.state is TakingDamage,
        !p.parry_timer.is_finished(),
    ensures
        forall|k: int|
            0 <= k <= deltas.len() ==> {
                &&& p.parry_timer.elapsed + total_time(deltas.take(k)) < p.parry_timer.duration ==> (#[trigger] timed_run(
                    p,
                    deltas.take(k),
                )).state is TakingDamage
                &&& p.parry_timer.elapsed + total_time(deltas.take(k)) >= p.parry_timer.duration ==> timed_run(
                    p,
                    deltas.take(k),
                ).state is Dead
            },
        forall|k: int|
            1 <= k <= deltas.len() ==> ((#[trigger] timed_run(p, deltas.take(k))).parry_timer.crossed <==> (
            p.parry_timer.elapsed + total_time(deltas.take(k - 1)) < p.parry_timer.duration
                <= p.parry_timer.elapsed + total_time(deltas.take(k)))),
        timed_run_changes(p, deltas) == if p.parry_timer.elapsed + total_time(deltas) >= p.parry_timer.duration {
            seq![PlayerStateChangeEvent(p.player_number, PlayerState::Dead)]
        } else {
            Seq::<PlayerStateChangeEvent>::empty()
        },
{
    assert forall|k: int| 0 <= k <= deltas.len() implies {
        &&& p.parry_timer.elapsed + total_time(deltas.take(k)) < p.parry_timer.duration ==> (#[trigger] timed_run(
            p,
            deltas.take(k),
        )).state is TakingDamage
        &&& p.parry_timer.elapsed + total_time(deltas.take(k)) >= p.parry_timer.duration ==> timed_run(
            p,
            deltas.take(k),
        ).state is Dead
        &&& k >= 1 ==> (timed_run(p, deltas.take(k)).parry_timer.crossed <==> (p.parry_timer.elapsed + total_time(
            deltas.take(k - 1),
        ) < p.parry_timer.duration <= p.parry_timer.elapsed + total_time(deltas.take(k))))
    } by {
        lemma_damage_window(p, deltas.take(k));
        if k >= 1 {
            assert(deltas.take(k).drop_last() =~= deltas.take(k - 1));
            lemma_damage_window(p, deltas.take(k - 1));
        }
    }
    lemma_damage_window(p, deltas);
}

} // verus!
