use flapp_birb::obstacle::{obstacle, Direction, Obstacle};
use flapp_birb::tuning::{
    get_centered_pos, LATTICE_PERIOD, OBSTACLE_AMOUNT, OBSTACLE_CENTER, OBSTACLE_GAP,
    OBSTACLE_HEIGHT, OBSTACLE_SPACING,
};

const WINDOW_WIDTH: i64 = 1_280_000_000;

#[test]
fn centered_pos_is_half_the_height_plus_the_gap() {
    assert_eq!(get_centered_pos(), 396_000_000);
    assert_eq!(get_centered_pos(), OBSTACLE_HEIGHT / 2 + OBSTACLE_GAP);
    assert_eq!(get_centered_pos(), OBSTACLE_CENTER);
}

#[test]
fn lattice_period_is_amount_times_spacing() {
    assert_eq!(LATTICE_PERIOD, OBSTACLE_AMOUNT as i64 * OBSTACLE_SPACING);
    assert_eq!(LATTICE_PERIOD, 2_304_000_000);
}

#[test]
fn direction_flags() {
    assert_eq!(Direction::Upper.sign(), 1);
    assert_eq!(Direction::Lower.sign(), -1);
}

#[test]
fn obstacle_holds_what_it_is_given() {
    let o = obstacle(5, -7, Direction::Lower);
    assert_eq!(o, Obstacle { x: 5, y: -7, pipe_direction: Direction::Lower });
}

#[test]
fn score_tick_for_upper_member_just_ahead() {
    // obstacle at x = 5.0, bird at x = 4.0, a tenth of a second: 1.0 < 12.0
    let o = obstacle(5_000_000, 396_000_000, Direction::Upper);
    assert!(o.is_passed(4_000_000, 100));
}

#[test]
fn no_score_tick_for_lower_member() {
    let o = obstacle(5_000_000, -396_000_000, Direction::Lower);
    assert!(!o.is_passed(4_000_000, 100));
}

#[test]
fn passing_is_strict_on_both_sides() {
    let reach: i64 = 120_000 * 100;
    let at = |x: i64| obstacle(x, 396_000_000, Direction::Upper).is_passed(0, 100);
    assert!(!at(0));
    assert!(at(1));
    assert!(at(reach - 1));
    assert!(!at(reach));
    assert!(!at(-1));
}

#[test]
fn nothing_is_passed_in_a_frame_of_no_time() {
    let o = obstacle(1, 396_000_000, Direction::Upper);
    assert!(!o.is_passed(0, 0));
}

#[test]
fn passing_at_the_ends_of_the_number_range() {
    let far = obstacle(i64::MAX, 0, Direction::Upper);
    assert!(!far.is_passed(i64::MIN, u32::MAX));
    let near = obstacle(i64::MIN + 1, 0, Direction::Upper);
    assert!(near.is_passed(i64::MIN, 1));
}

#[test]
fn collision_envelope_is_strict_in_height() {
    let o = obstacle(0, 0, Direction::Lower);
    assert!(o.collides(0, 312_749_999));
    assert!(!o.collides(0, 312_750_000));
    assert!(o.collides(0, -312_749_999));
    assert!(!o.collides(0, -312_750_000));
}

#[test]
fn collision_envelope_is_strict_in_width() {
    let o = obstacle(0, 0, Direction::Upper);
    assert!(o.collides(60_749_999, 0));
    assert!(!o.collides(60_750_000, 0));
    assert!(o.collides(-60_749_999, 0));
    assert!(!o.collides(-60_750_000, 0));
}

#[test]
fn collision_needs_both_distances_inside() {
    let o = obstacle(100_000_000, 396_000_000, Direction::Upper);
    assert!(o.collides(100_000_000, 396_000_000));
    assert!(o.collides(160_000_000, 700_000_000));
    assert!(!o.collides(161_000_000, 396_000_000));
    assert!(!o.collides(100_000_000, 83_000_000));
    assert!(!o.collides(161_000_000, 83_000_000));
}

#[test]
fn collision_at_the_ends_of_the_number_range() {
    let o = obstacle(i64::MIN, i64::MIN, Direction::Upper);
    assert!(!o.collides(i64::MAX, i64::MAX));
    assert!(o.collides(i64::MIN, i64::MIN));
}

#[test]
fn advance_scrolls_by_speed_times_time() {
    let mut o = obstacle(1_000_000_000, 400_000_000, Direction::Upper);
    o.advance(16, WINDOW_WIDTH, 0);
    assert_eq!(o, obstacle(1_000_000_000 - 1_920_000, 400_000_000, Direction::Upper));
}

#[test]
fn advance_of_no_time_leaves_a_visible_obstacle() {
    let mut o = obstacle(-3, 17, Direction::Lower);
    o.advance(0, WINDOW_WIDTH, 5);
    assert_eq!(o, obstacle(-3, 17, Direction::Lower));
}

#[test]
fn recycle_waits_until_the_right_edge_has_passed() {
    // the right edge is at x + 72.0, the left boundary at -640.0
    let mut o = obstacle(-712_000_000 + 120_000, 300_000_000, Direction::Upper);
    o.advance(1, WINDOW_WIDTH, 1_000_000);
    assert_eq!(o, obstacle(-712_000_000, 300_000_000, Direction::Upper));
}

#[test]
fn recycle_moves_one_period_and_takes_the_fresh_offset() {
    let mut upper = obstacle(-712_000_000 + 119_999, 300_000_000, Direction::Upper);
    upper.advance(1, WINDOW_WIDTH, 1_000_000);
    assert_eq!(upper, obstacle(-712_000_001 + 2_304_000_000, 397_000_000, Direction::Upper));

    let mut lower = obstacle(-712_000_000 + 119_999, -300_000_000, Direction::Lower);
    lower.advance(1, WINDOW_WIDTH, -2_000_000);
    assert_eq!(lower, obstacle(-712_000_001 + 2_304_000_000, -398_000_000, Direction::Lower));
}

#[test]
fn recycle_keeps_the_place_on_the_lattice() {
    let mut o = obstacle(-800_000_000, 300_000_000, Direction::Upper);
    let scrolled: i64 = -800_000_000 - 120_000 * 250;
    o.advance(250, WINDOW_WIDTH, 0);
    assert_eq!(o.x, scrolled + LATTICE_PERIOD);
    assert_eq!(o.x.rem_euclid(LATTICE_PERIOD), scrolled.rem_euclid(LATTICE_PERIOD));
}

#[test]
fn recycle_in_a_window_of_odd_width() {
    // 2 * x + 144_000_000 < -3 holds from x = -72_000_002 down
    let mut kept = obstacle(-72_000_001, 0, Direction::Upper);
    kept.advance(0, 3, 0);
    assert_eq!(kept.x, -72_000_001);
    let mut moved = obstacle(-72_000_002, 0, Direction::Upper);
    moved.advance(0, 3, 0);
    assert_eq!(moved.x, -72_000_002 + LATTICE_PERIOD);
    assert_eq!(moved.y, 396_000_000);
}

#[test]
fn advance_at_the_lower_end_of_the_number_range() {
    let mut o = obstacle(i64::MIN + 120_000, 0, Direction::Lower);
    o.advance(1, i64::MAX, 134_999_999);
    assert_eq!(o.x, i64::MIN + LATTICE_PERIOD);
    assert_eq!(o.y, -261_000_001);
}
