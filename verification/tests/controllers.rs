use ultimate_cate_battle::heading::{forward, swing};
use ultimate_cate_battle::maze::{hit_approves, step_sound, Session};
use ultimate_cate_battle::model::{StepCue, TurnLoop};
use ultimate_cate_battle::settings::{camera, Settings};
use ultimate_cate_battle::units::{
    turn_amount, walk_amount, CELL, DEGREE, FULL_TURN, QUARTER_TURN, STRIDE,
};

const MILLI: u64 = 1_000_000;

fn idle_session() -> Session {
    Session::build_maze()
}

#[test]
fn entering_the_maze_places_an_idle_player() {
    let s = Session::build_maze();
    assert_eq!((s.player.x, s.player.y, s.player.z), (CELL, CELL, 5 * CELL));
    assert_eq!(s.player.heading, 0);
    assert_eq!(s.degrees_to_turn, 0);
    assert_eq!(s.distance_to_move, 0);
    assert_eq!(s.step_timer, 0);
    assert_eq!(s.steps_taken, 0);
    assert!(s.is_idle());
    assert!(s.has_reach());
}

#[test]
fn default_settings() {
    let settings = Settings::default();
    assert_eq!(settings.turn_speed, 1);
    assert_eq!(settings.walk_speed, 1000);
    assert_eq!(settings.field_of_view, 90_000);
    assert_eq!(camera(&settings), 90_000);
}

#[test]
fn step_formulas_are_exact() {
    // One second at turn speed 1 is one hundred degrees.
    assert_eq!(turn_amount(1, 1_000_000_000), 100 * DEGREE);
    assert_eq!(turn_amount(3, 16 * MILLI), 4_800_000_000);
    assert_eq!(turn_amount(0, 16 * MILLI), 0);
    // One second at walk speed 1.0 is four world units.
    assert_eq!(walk_amount(1000, 1_000_000_000), 4 * CELL);
    assert_eq!(walk_amount(1500, 10 * MILLI), 60_000_000_000);
    assert_eq!(
        turn_amount(u32::MAX, u64::MAX),
        (u32::MAX as i128) * (u64::MAX as i128) * 100
    );
    assert_eq!(
        walk_amount(u32::MAX, u64::MAX),
        (u32::MAX as i128) * (u64::MAX as i128) * 4
    );
}

#[test]
fn pointer_in_left_third_commits_left_turn() {
    let mut s = idle_session();
    s.player_turning(&Settings::default(), 16 * MILLI, Some(0), 900);
    assert_eq!(s.degrees_to_turn, 90 * DEGREE);
    assert_eq!(s.degrees_to_turn, QUARTER_TURN);
    assert_eq!(s.player.heading, 0);
}

#[test]
fn pointer_at_center_commits_nothing() {
    let mut s = idle_session();
    s.player_turning(&Settings::default(), 16 * MILLI, Some(450), 900);
    assert_eq!(s.degrees_to_turn, 0);
    assert!(s.is_idle());
}

#[test]
fn pointer_in_right_third_commits_right_turn() {
    let mut s = idle_session();
    s.player_turning(&Settings::default(), 16 * MILLI, Some(899), 900);
    assert_eq!(s.degrees_to_turn, -QUARTER_TURN);
}

#[test]
fn pointer_on_the_third_lines_commits_nothing() {
    for x in [300, 301, 599, 600] {
        let mut s = idle_session();
        s.player_turning(&Settings::default(), 16 * MILLI, Some(x), 900);
        assert_eq!(s.degrees_to_turn, 0, "x = {}", x);
    }
    let mut s = idle_session();
    s.player_turning(&Settings::default(), 16 * MILLI, Some(299), 900);
    assert_eq!(s.degrees_to_turn, QUARTER_TURN);
    let mut s = idle_session();
    s.player_turning(&Settings::default(), 16 * MILLI, Some(601), 900);
    assert_eq!(s.degrees_to_turn, -QUARTER_TURN);
}

#[test]
fn pointer_outside_the_window_commits_nothing() {
    let mut s = idle_session();
    s.player_turning(&Settings::default(), 16 * MILLI, None, 900);
    assert!(s.is_idle());
}

#[test]
fn pointer_is_ignored_while_moving() {
    let mut s = idle_session();
    s.collision_check(&vec![3 * CELL as u64]);
    assert_eq!(s.distance_to_move, STRIDE);
    s.player_turning(&Settings::default(), 16 * MILLI, Some(0), 900);
    assert_eq!(s.degrees_to_turn, 0);
    assert_eq!(s.distance_to_move, STRIDE);
}

#[test]
fn pointer_is_ignored_while_turning() {
    let mut s = idle_session();
    s.player_turning(&Settings::default(), 10 * MILLI, Some(0), 900);
    s.player_turning(&Settings::default(), 10 * MILLI, Some(899), 900);
    assert_eq!(s.degrees_to_turn, 89 * DEGREE);
    assert_eq!(s.player.heading, DEGREE);
}

#[test]
fn wall_right_ahead_blocks_the_move() {
    let mut s = idle_session();
    s.collision_check(&vec![CELL as u64]);
    assert_eq!(s.distance_to_move, 0);
    assert!(s.is_idle());
}

#[test]
fn farther_hit_approves_two_units() {
    let mut s = idle_session();
    s.collision_check(&vec![2_400_000_000_000]);
    assert_eq!(s.distance_to_move, 2 * CELL);
    assert_eq!(s.degrees_to_turn, 0);
}

#[test]
fn no_hits_approve_nothing() {
    let mut s = idle_session();
    s.collision_check(&Vec::new());
    assert!(s.is_idle());
}

#[test]
fn any_hit_off_one_unit_approves() {
    let mut s = idle_session();
    s.collision_check(&vec![CELL as u64, 3 * CELL as u64]);
    assert_eq!(s.distance_to_move, STRIDE);
    let mut s = idle_session();
    s.collision_check(&vec![CELL as u64, CELL as u64 + 1]);
    assert_eq!(s.distance_to_move, 0);
}

#[test]
fn hit_distances_round_half_up() {
    assert!(hit_approves(0));
    assert!(hit_approves(499_999_999_999));
    assert!(!hit_approves(500_000_000_000));
    assert!(!hit_approves(1_000_000_000_000));
    assert!(!hit_approves(1_499_999_999_999));
    assert!(hit_approves(1_500_000_000_000));
    assert!(hit_approves(2_400_000_000_000));
    assert!(hit_approves(u64::MAX));
}

#[test]
fn gate_leaves_a_turning_player_alone() {
    let mut s = idle_session();
    s.player_turning(&Settings::default(), 16 * MILLI, Some(0), 900);
    let before = s;
    s.collision_check(&vec![3 * CELL as u64]);
    assert_eq!(s.distance_to_move, 0);
    assert_eq!(s, before);
}

#[test]
fn gate_leaves_a_moving_player_alone() {
    let settings = Settings::default();
    let mut s = idle_session();
    s.collision_check(&vec![3 * CELL as u64]);
    s.player_move(&settings, 10 * MILLI);
    let left = s.distance_to_move;
    assert_eq!(left, STRIDE - 40_000_000_000);
    let before = s;
    s.collision_check(&vec![3 * CELL as u64]);
    assert_eq!(s.distance_to_move, left);
    assert_eq!(s, before);
}

#[test]
fn gate_twice_is_gate_once() {
    let hits = vec![2 * CELL as u64];
    let mut once = idle_session();
    once.collision_check(&hits);
    let mut twice = once;
    twice.collision_check(&hits);
    assert_eq!(once.distance_to_move, STRIDE);
    assert_eq!(twice, once);
}

#[test]
fn forward_follows_the_heading() {
    assert_eq!(forward(0), (0, -1));
    assert_eq!(forward(QUARTER_TURN), (-1, 0));
    assert_eq!(forward(2 * QUARTER_TURN), (0, 1));
    assert_eq!(forward(3 * QUARTER_TURN), (1, 0));
    assert_eq!(forward(FULL_TURN - 1), (0, -1));
    // Up to a degree off a quarter turn still faces along an axis.
    assert_eq!(forward(QUARTER_TURN - DEGREE), (-1, 0));
    assert_eq!(forward(QUARTER_TURN + DEGREE), (-1, 0));
    // Components of a half or more round away from zero.
    assert_eq!(forward(30 * DEGREE - 1), (0, -1));
    assert_eq!(forward(30 * DEGREE), (-1, -1));
    assert_eq!(forward(60 * DEGREE), (-1, -1));
    assert_eq!(forward(60 * DEGREE + 1), (-1, 0));
    assert_eq!(forward(120 * DEGREE), (-1, 1));
    assert_eq!(forward(150 * DEGREE + 1), (0, 1));
    assert_eq!(forward(210 * DEGREE), (1, 1));
    assert_eq!(forward(240 * DEGREE + 1), (1, 0));
    assert_eq!(forward(300 * DEGREE), (1, -1));
    assert_eq!(forward(330 * DEGREE + 1), (0, -1));
}

#[test]
fn swing_wraps_both_ways() {
    assert_eq!(swing(0, DEGREE), DEGREE);
    assert_eq!(swing(0, -DEGREE), 359 * DEGREE);
    assert_eq!(swing(359 * DEGREE, 2 * DEGREE), DEGREE);
    assert_eq!(swing(10 * DEGREE, -FULL_TURN), 10 * DEGREE);
    assert_eq!(swing(10 * DEGREE, -3 * FULL_TURN - 20 * DEGREE), 350 * DEGREE);
    assert_eq!(swing(10 * DEGREE, 7 * FULL_TURN), 10 * DEGREE);
    assert_eq!(swing(0, 0), 0);
}

#[test]
fn step_sounds_alternate_by_parity() {
    assert_eq!(step_sound(1), StepCue::Second);
    assert_eq!(step_sound(2), StepCue::First);
    assert_eq!(step_sound(3), StepCue::Second);
    assert_eq!(step_sound(0), StepCue::First);
}

#[test]
fn turn_sound_plays_while_turning() {
    let mut s = idle_session();
    assert_eq!(s.turn_sound(), TurnLoop::Pause);
    s.player_turning(&Settings::default(), 16 * MILLI, Some(0), 900);
    assert_eq!(s.turn_sound(), TurnLoop::Play);
}
