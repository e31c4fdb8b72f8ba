use duel::arena::{Arena, Frame, START_OFFSET};
use duel::clash::PushBack;
use duel::combat::{AttackEvent, ClashEvent, PlayerStateChangeEvent};
use duel::player::{Bounds, Intent, PlayerState, UNIT};

const FRAME: u64 = 16_000;

fn idle() -> Intent {
    Intent { left: false, right: false, attack: false }
}

fn attack() -> Intent {
    Intent { left: false, right: false, attack: true }
}

fn frame(one: Intent, two: Intent, delta: u64) -> Frame {
    Frame { one, two, delta, bounds: Bounds { min: -1200 * UNIT, max: 1200 * UNIT } }
}

fn standing_at(p1: i64, p2: i64) -> Arena {
    let mut arena = Arena::new();
    arena.one.position = p1 * UNIT;
    arena.two.position = p2 * UNIT;
    arena
}

#[test]
fn out_of_range_attack_whiffs() {
    let mut arena = standing_at(-300, 300);
    let report = arena.tick(frame(attack(), idle(), 0));
    assert_eq!(report.attacks, vec![AttackEvent(1)]);
    assert_eq!(arena.one.state, PlayerState::Wiff);
    assert_eq!(arena.two.state, PlayerState::Alive);
    assert_eq!(report.state_changes, vec![PlayerStateChangeEvent(1, PlayerState::Wiff)]);
    assert!(report.clashes.is_empty());
}

#[test]
fn in_range_attack_hits() {
    let mut arena = standing_at(-40, 40);
    arena.two.parry_timer.set_elapsed(30_000);
    let report = arena.tick(frame(attack(), idle(), 0));
    assert_eq!(arena.one.state, PlayerState::Alive);
    assert_eq!(arena.two.state, PlayerState::TakingDamage);
    assert_eq!(arena.two.parry_timer.elapsed, 0);
    assert_eq!(report.state_changes, vec![PlayerStateChangeEvent(2, PlayerState::TakingDamage)]);
}

#[test]
fn counter_attack_in_damage_window_clashes() {
    let mut arena = standing_at(-40, 40);
    arena.tick(frame(attack(), idle(), 0));
    assert_eq!(arena.two.state, PlayerState::TakingDamage);
    let report = arena.tick(frame(idle(), attack(), FRAME));
    assert_eq!(report.attacks, vec![AttackEvent(2)]);
    assert_eq!(arena.one.state, PlayerState::Clashing);
    assert_eq!(arena.two.state, PlayerState::Clashing);
    assert_eq!(report.clashes, vec![ClashEvent(2, 1)]);
    assert_eq!(arena.clash_counter.0, 1);
    assert_eq!(
        report.state_changes,
        vec![
            PlayerStateChangeEvent(2, PlayerState::Clashing),
            PlayerStateChangeEvent(1, PlayerState::Clashing),
        ]
    );
    assert_eq!(
        report.push_backs,
        vec![
            PushBack { player: 2, start: 40 * UNIT, end: 340 * UNIT, duration: 200_000 },
            PushBack { player: 1, start: -40 * UNIT, end: -340 * UNIT, duration: 200_000 },
        ]
    );
}

#[test]
fn damage_window_running_out_kills_once() {
    let mut arena = standing_at(-300, 300);
    arena.two.state = PlayerState::TakingDamage;
    arena.two.parry_timer.reset();
    assert_eq!(arena.two.parry_timer.duration, 64_000);
    let mut deaths = 0;
    let mut crossings = 0;
    for tick in 1..=10 {
        let report = arena.tick(frame(idle(), idle(), FRAME));
        if arena.two.parry_timer.just_finished() {
            crossings += 1;
            assert_eq!(tick, 4);
        }
        for change in &report.state_changes {
            if change.1 == PlayerState::Dead {
                deaths += 1;
                assert_eq!(tick, 4);
                assert_eq!(change.0, 2);
            }
        }
        if tick < 4 {
            assert_eq!(arena.two.state, PlayerState::TakingDamage);
        } else {
            assert_eq!(arena.two.state, PlayerState::Dead);
        }
    }
    assert_eq!(deaths, 1);
    assert_eq!(crossings, 1);
}

#[test]
fn reset_revives_and_rearms() {
    let mut arena = Arena::new();
    arena.one.state = PlayerState::Dead;
    arena.one.attack_timer.reset();
    arena.two.position = 500 * UNIT;
    arena.two.attack_timer.reset();
    let changes = arena.reset_players();
    assert_eq!(arena.one.state, PlayerState::Alive);
    assert_eq!(arena.two.state, PlayerState::Alive);
    assert_eq!(arena.one.position, -START_OFFSET);
    assert_eq!(arena.two.position, START_OFFSET);
    assert_eq!(arena.one.position, -300 * UNIT);
    assert_eq!(arena.two.position, 300 * UNIT);
    assert!(arena.one.attack_timer.finished());
    assert!(arena.two.attack_timer.finished());
    assert_eq!(
        changes,
        vec![PlayerStateChangeEvent(1, PlayerState::Alive), PlayerStateChangeEvent(2, PlayerState::Alive)]
    );
}
