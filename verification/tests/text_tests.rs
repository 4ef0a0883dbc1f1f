use flapp_birb::model::Phase;
use flapp_birb::simulation::RenderSnapshot;
use flapp_birb::text::{score_text, show_pause_screen, PAUSE_TEXT_1, PAUSE_TEXT_2, SCORE_DISPLAY};

#[test]
fn score_text_of_small_scores() {
    assert_eq!(score_text(0), "Score: 0");
    assert_eq!(score_text(7), "Score: 7");
    assert_eq!(score_text(9), "Score: 9");
    assert_eq!(score_text(10), "Score: 10");
    assert_eq!(score_text(11), "Score: 11");
}

#[test]
fn score_text_shows_every_digit() {
    assert_eq!(score_text(1_234_567_890), "Score: 1234567890");
    assert_eq!(score_text(100), "Score: 100");
    assert_eq!(score_text(9_080_706_050_403_020_100), "Score: 9080706050403020100");
}

#[test]
fn score_text_of_the_greatest_score() {
    assert_eq!(score_text(u64::MAX), "Score: 18446744073709551615");
}

#[test]
fn score_text_agrees_with_the_standard_formatting() {
    for score in [0, 5, 19, 20, 99, 101, 999, 1000, 65_535, 4_294_967_296] {
        assert_eq!(score_text(score), format!("{}{}", SCORE_DISPLAY, score));
    }
}

#[test]
fn no_pause_screen_while_playing() {
    let snapshot =
        RenderSnapshot { phase: Phase::Playing, score: 3, bird: None, obstacles: Vec::new() };
    assert!(show_pause_screen(&snapshot).is_none());
}

#[test]
fn pause_screen_shows_the_prompts_and_the_final_score() {
    let snapshot =
        RenderSnapshot { phase: Phase::Paused, score: 42, bird: None, obstacles: Vec::new() };
    let screen = show_pause_screen(&snapshot).unwrap();
    assert_eq!(screen.title, "Flap Flap Away~");
    assert_eq!(screen.hint, "press [space] to start.");
    assert_eq!(screen.score, "Score: 42");
    assert_eq!(screen.title, PAUSE_TEXT_1);
    assert_eq!(screen.hint, PAUSE_TEXT_2);
}
