use kaijutsu_app::input::tap::TapCounter;
use kaijutsu_app::time::Moment;

fn after_ms(ms: i64) -> Moment {
    Moment { nanos: ms * 1_000_000 }
}

#[test]
fn first_press_is_one() {
    let mut t = TapCounter::new(500, 3);
    assert_eq!(t.press(), 1);
}

#[test]
fn rapid_presses_count_up_and_saturate() {
    let mut t = TapCounter::new(500, 3);
    assert_eq!(t.press(), 1);
    assert_eq!(t.press(), 2);
    assert_eq!(t.press(), 3);
    // Saturates — never wraps, never self-resets.
    assert_eq!(t.press(), 3);
}

#[test]
fn saturation_respects_max_two() {
    let mut t = TapCounter::new(500, 2);
    t.press();
    t.press();
    assert_eq!(t.press(), 2);
}

#[test]
fn window_expiry_restarts_at_one() {
    let mut t = TapCounter::new(500, 3);
    t.press();
    t.backdate(600);
    assert_eq!(t.press(), 1);
}

#[test]
fn reset_clears() {
    let mut t = TapCounter::new(500, 3);
    t.press();
    t.press();
    t.reset();
    assert_eq!(t.count(), 0);
    assert_eq!(t.press(), 1);
}

#[test]
fn press_at_is_deterministic() {
    let mut t = TapCounter::new(500, 2);
    assert_eq!(t.press_at(after_ms(0)), 1);
    assert_eq!(t.press_at(after_ms(100)), 2);
    // Outside the window from the SECOND press.
    assert_eq!(t.press_at(after_ms(700)), 1);
}

#[test]
fn the_presses_of_a_run_count_up_to_the_maximum() {
    let mut t = TapCounter::new(500, 3);
    let counts: Vec<u8> = (0..5).map(|i| t.press_at(after_ms(400 * i))).collect();
    assert_eq!(counts, vec![1, 2, 3, 3, 3]);
    assert_eq!(t.press_at(after_ms(400 * 4 + 500)), 1);
}
