use duel::arena::{Arena, Frame};
use duel::combat::AttackEvent;
use duel::player::{Appearance, Bounds, Intent, Player, PlayerState, UNIT};

const WIDE: Bounds = Bounds { min: -1200 * UNIT, max: 1200 * UNIT };

fn right() -> Intent {
    Intent { left: false, right: true, attack: false }
}

fn left() -> Intent {
    Intent { left: true, right: false, attack: false }
}

fn armed(number: u8, position: i64) -> Player {
    let mut p = Player::new(number, position);
    p.attack_timer.set_elapsed(p.attack_timer.duration);
    p
}

#[test]
fn alive_moves_at_base_speed() {
    let mut p = armed(1, 0);
    assert!(!p.apply_intent(right(), 100_000, 0, WIDE));
    assert_eq!(p.position, 65 * UNIT);
    p.apply_intent(left(), 1_000_000, 0, WIDE);
    assert_eq!(p.position, (65 - 650) * UNIT);
}

#[test]
fn clashes_raise_speed() {
    let mut p = armed(1, 0);
    p.apply_intent(right(), 100_000, 10, WIDE);
    assert_eq!(p.position, 66 * UNIT);
    let mut q = armed(2, 0);
    q.state = PlayerState::TakingDamage;
    q.apply_intent(left(), 1_000_000, 50, WIDE);
    assert_eq!(q.position, -700 * UNIT);
}

#[test]
fn wiff_moves_at_a_tenth() {
    let mut p = armed(1, 0);
    p.state = PlayerState::Wiff;
    p.apply_intent(right(), 1_000_000, 100, WIDE);
    assert_eq!(p.position, 65 * UNIT);
    p.apply_intent(left(), 100_000, 0, WIDE);
    assert_eq!(p.position, 58_500_000);
}

#[test]
fn dead_and_clashing_stand_still() {
    for state in [PlayerState::Dead, PlayerState::Clashing] {
        let mut p = armed(1, 10);
        p.state = state;
        let attacked = p.apply_intent(Intent { left: false, right: true, attack: true }, 1_000_000, 0, WIDE);
        assert_eq!(p.position, 10);
        assert!(!attacked);
        assert!(p.attack_timer.finished());
    }
}

#[test]
fn both_keys_cancel() {
    let mut p = armed(1, 10);
    p.apply_intent(Intent { left: true, right: true, attack: false }, 1_000_000, 0, WIDE);
    assert_eq!(p.position, 10);
}

#[test]
fn position_is_clamped() {
    let mut p = armed(1, 1190 * UNIT);
    p.apply_intent(right(), 1_000_000, 0, WIDE);
    assert_eq!(p.position, 1200 * UNIT);
    let mut q = armed(2, -5000 * UNIT);
    q.apply_intent(Intent { left: false, right: false, attack: false }, 0, 0, WIDE);
    assert_eq!(q.position, -1200 * UNIT);
    let mut r = armed(1, i64::MIN);
    r.apply_intent(left(), u64::MAX, u32::MAX, Bounds { min: i64::MIN, max: i64::MAX });
    assert_eq!(r.position, i64::MIN);
}

#[test]
fn attack_restarts_cooldown() {
    let mut p = armed(1, 0);
    let attacked = p.apply_intent(Intent { left: false, right: false, attack: true }, 16_000, 0, WIDE);
    assert!(attacked);
    assert_eq!(p.attack_timer.elapsed, 0);
    assert!(!p.attack_timer.finished());
}

#[test]
fn attack_while_hurt_is_allowed() {
    let mut p = armed(2, 0);
    p.state = PlayerState::TakingDamage;
    assert!(p.apply_intent(Intent { left: false, right: false, attack: true }, 0, 0, WIDE));
}

#[test]
fn attack_while_wiff_is_ignored() {
    let mut p = armed(1, 0);
    p.state = PlayerState::Wiff;
    assert!(!p.apply_intent(Intent { left: false, right: false, attack: true }, 0, 0, WIDE));
}

#[test]
fn held_attack_during_cooldown_never_requests() {
    let mut arena = Arena::new();
    let press = Intent { left: false, right: false, attack: true };
    let idle = Intent { left: false, right: false, attack: false };
    let first = arena.tick(Frame { one: press, two: idle, delta: 16_000, bounds: WIDE });
    assert_eq!(first.attacks, vec![AttackEvent(1)]);
    for _ in 0..62 {
        let report = arena.tick(Frame { one: press, two: idle, delta: 16_000, bounds: WIDE });
        assert!(report.attacks.is_empty());
    }
    let again = arena.tick(Frame { one: press, two: idle, delta: 16_000, bounds: WIDE });
    assert_eq!(again.attacks, vec![AttackEvent(1)]);
}

#[test]
fn player_default_is_alive_at_origin() {
    let p = Player::default();
    assert_eq!(p.player_number, 0);
    assert_eq!(p.state, PlayerState::Alive);
    assert_eq!(p.position, 0);
    assert_eq!(p.attack_timer.duration, 1_000_000);
    assert_eq!(p.parry_timer.duration, 64_000);
    assert_eq!(p.clashing_timer.duration, 1_000_000);
    assert_eq!(PlayerState::default(), PlayerState::Alive);
}

#[test]
fn appearance_follows_cooldown_and_state() {
    let mut p = armed(1, 0);
    assert_eq!(p.appearance(), Appearance::Natural);
    p.state = PlayerState::Clashing;
    assert_eq!(p.appearance(), Appearance::Flash);
    p.state = PlayerState::Wiff;
    assert_eq!(p.appearance(), Appearance::Unchanged);
    p.state = PlayerState::TakingDamage;
    assert_eq!(p.appearance(), Appearance::Unchanged);
    p.attack_timer.reset();
    assert_eq!(p.appearance(), Appearance::Dimmed);
    p.state = PlayerState::Dead;
    assert_eq!(p.appearance(), Appearance::Dark);
}

#[test]
fn small_frames_still_move() {
    let mut p = armed(1, 0);
    for _ in 0..60 {
        p.apply_intent(right(), 16_666, 0, WIDE);
    }
    assert_eq!(p.position, 650 * 16_666 * 60);
    let mut q = armed(2, 0);
    q.state = PlayerState::Wiff;
    q.apply_intent(right(), 6_944, 0, WIDE);
    assert_eq!(q.position, 65 * 6_944);
    let mut r = armed(1, 0);
    r.apply_intent(right(), 16_666, 1, WIDE);
    assert_eq!(r.position, 651 * 16_666);
}
