use flapp_birb::bird::{spawn_bird, Bird};
use flapp_birb::tuning::{FLAP_FORCE, GRAVITY, MAX_TILT};

#[test]
fn a_new_bird_is_at_the_origin_and_at_rest() {
    assert_eq!(spawn_bird(), Bird { y: 0, velocity: 0 });
}

#[test]
fn fall_from_rest() {
    let mut bird = spawn_bird();
    bird.integrate(100, false);
    assert_eq!(bird, Bird { y: -16_000_000, velocity: -160_000 });
}

#[test]
fn gravity_acts_before_the_move() {
    let mut bird = Bird { y: 10_000_000, velocity: 50_000 };
    bird.integrate(16, false);
    let velocity: i64 = 50_000 - GRAVITY * 16;
    assert_eq!(bird.velocity, velocity);
    assert_eq!(bird.y, 10_000_000 + velocity * 16);
    assert_eq!(bird, Bird { y: 10_390_400, velocity: 24_400 });
}

#[test]
fn flap_sets_the_velocity_to_the_impulse() {
    for start in [0, -1_000_000, 1_000_000, i64::MIN, i64::MAX, FLAP_FORCE] {
        let mut bird = Bird { y: 3, velocity: start };
        bird.flap();
        assert_eq!(bird, Bird { y: 3, velocity: 400_000 });
    }
}

#[test]
fn flap_overrides_the_velocity_in_a_frame() {
    let mut falling = Bird { y: 0, velocity: -900_000 };
    let mut rising = Bird { y: 0, velocity: 900_000 };
    falling.integrate(100, true);
    rising.integrate(100, true);
    assert_eq!(falling, Bird { y: 24_000_000, velocity: 240_000 });
    assert_eq!(rising, falling);
}

#[test]
fn a_frame_of_no_time_with_a_flap() {
    let mut bird = Bird { y: -5, velocity: -123 };
    bird.integrate(0, true);
    assert_eq!(bird, Bird { y: -5, velocity: FLAP_FORCE });
}

#[test]
fn a_frame_of_no_time_without_a_flap() {
    let mut bird = Bird { y: -5, velocity: -123 };
    bird.integrate(0, false);
    assert_eq!(bird, Bird { y: -5, velocity: -123 });
}

#[test]
fn tilt_is_the_velocity_over_seven_point_two() {
    let tilt = |velocity: i64| Bird { y: 0, velocity }.tilt();
    assert_eq!(tilt(0), 0);
    assert_eq!(tilt(72_000), 10_000);
    assert_eq!(tilt(-72_000), -10_000);
    assert_eq!(tilt(400_000), 55_555);
    assert_eq!(tilt(-400_000), -55_555);
}

#[test]
fn tilt_rounds_towards_zero() {
    let tilt = |velocity: i64| Bird { y: 0, velocity }.tilt();
    assert_eq!(tilt(7), 0);
    assert_eq!(tilt(-7), 0);
    assert_eq!(tilt(8), 1);
    assert_eq!(tilt(-8), -1);
    assert_eq!(tilt(647_999), 89_999);
    assert_eq!(tilt(-647_999), -89_999);
}

#[test]
fn tilt_is_held_to_a_quarter_turn() {
    let tilt = |velocity: i64| Bird { y: 0, velocity }.tilt();
    assert_eq!(tilt(648_000), MAX_TILT);
    assert_eq!(tilt(648_001), 90_000);
    assert_eq!(tilt(-648_000), -90_000);
    assert_eq!(tilt(i64::MAX), 90_000);
    assert_eq!(tilt(i64::MIN), -90_000);
}

#[test]
fn floor_is_at_half_the_height_and_counts() {
    let at = |y: i64| Bird { y, velocity: 0 }.is_below_floor(720_000_000);
    assert!(at(-360_000_000));
    assert!(at(-360_000_001));
    assert!(!at(-359_999_999));
    assert!(!at(0));
    assert!(at(i64::MIN));
}

#[test]
fn floor_of_a_window_of_odd_height() {
    // 2 * y <= -3 holds from y = -2 down
    assert!(!Bird { y: -1, velocity: 0 }.is_below_floor(3));
    assert!(Bird { y: -2, velocity: 0 }.is_below_floor(3));
}

#[test]
fn can_integrate_in_ordinary_frames() {
    assert!(spawn_bird().can_integrate(16, false));
    assert!(spawn_bird().can_integrate(16, true));
    assert!(spawn_bird().can_integrate(1_000_000, true));
    assert!(!spawn_bird().can_integrate(u32::MAX, true));
}

#[test]
fn cannot_integrate_below_the_least_height() {
    let bird = Bird { y: i64::MIN, velocity: 0 };
    assert!(bird.can_integrate(0, false));
    assert!(!bird.can_integrate(1, false));
    // 400_000 - 1_600 * 250 = 0: the flap holds the bird where it is
    assert!(bird.can_integrate(250, true));
    assert!(!bird.can_integrate(251, true));
}

#[test]
fn cannot_integrate_above_the_greatest_height() {
    let bird = Bird { y: i64::MAX, velocity: 1_600 };
    assert!(bird.can_integrate(1, false));
    let faster = Bird { y: i64::MAX, velocity: 1_601 };
    assert!(!faster.can_integrate(1, false));
}

#[test]
fn cannot_integrate_below_the_least_velocity() {
    let bird = Bird { y: 0, velocity: i64::MIN };
    assert!(bird.can_integrate(0, false));
    assert!(!bird.can_integrate(1, false));
    assert!(bird.can_integrate(1, true));
}

#[test]
fn integrate_at_the_edge_of_what_fits() {
    let mut bird = Bird { y: i64::MAX, velocity: 1_600 };
    bird.integrate(1, false);
    assert_eq!(bird, Bird { y: i64::MAX, velocity: 0 });
}
