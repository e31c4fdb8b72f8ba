use duel::clash::ClashCounter;
use duel::combat::{PlayerStateChangeEvent, ResetPlayers};
use duel::player::PlayerState;
use duel::score::{reset_points, Points};

#[test]
fn points_start_at_zero_with_no_reset_pending() {
    let mut points = Points::default();
    assert_eq!(points.player_1, 0);
    assert_eq!(points.player_2, 0);
    assert!(points.reset_timer.finished());
    assert_eq!(points.score_point(&vec![], 5_000_000), None);
}

#[test]
fn death_scores_for_the_other_player() {
    let mut points = Points::default();
    let reset = points.score_point(&vec![PlayerStateChangeEvent(1, PlayerState::Dead)], 16_000);
    assert_eq!(reset, None);
    assert_eq!(points.player_1, 0);
    assert_eq!(points.player_2, 1);
    assert_eq!(points.reset_timer.elapsed, 0);
    points.score_point(&vec![PlayerStateChangeEvent(2, PlayerState::Dead)], 16_000);
    assert_eq!(points.player_1, 1);
    assert_eq!(points.player_2, 1);
}

#[test]
fn other_changes_do_not_score() {
    let mut points = Points::default();
    points.score_point(
        &vec![
            PlayerStateChangeEvent(1, PlayerState::Wiff),
            PlayerStateChangeEvent(2, PlayerState::TakingDamage),
        ],
        16_000,
    );
    assert_eq!(points.player_1, 0);
    assert_eq!(points.player_2, 0);
}

#[test]
fn reset_follows_death_after_delay_once() {
    let mut points = Points::default();
    points.score_point(&vec![PlayerStateChangeEvent(2, PlayerState::Dead)], 0);
    assert_eq!(points.score_point(&vec![], 2_999_999), None);
    assert_eq!(points.score_point(&vec![], 1), Some(ResetPlayers));
    assert_eq!(points.score_point(&vec![], 1_000_000), None);
}

#[test]
fn score_saturates() {
    let mut points = Points::default();
    points.player_2 = u32::MAX;
    points.score_point(&vec![PlayerStateChangeEvent(1, PlayerState::Dead)], 0);
    assert_eq!(points.player_2, u32::MAX);
}

#[test]
fn new_match_clears_scores_and_counter() {
    let mut points = Points::default();
    points.player_1 = 4;
    points.player_2 = 2;
    let mut counter = ClashCounter(9);
    assert_eq!(reset_points(&mut points, &mut counter), ResetPlayers);
    assert_eq!(points.player_1, 0);
    assert_eq!(points.player_2, 0);
    assert_eq!(counter.0, 0);
}
