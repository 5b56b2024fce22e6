use rust_pong::state::background::{Background, Color, CHANNEL_MAX};

#[test]
fn background_starts_without_blue() {
    let b = Background::new();
    assert_eq!(b.color(), Color { r: 200, g: 700, b: 0 });
}

#[test]
fn background_update_returns_the_new_blue() {
    let mut b = Background::new();
    assert_eq!(b.update(), 1);
    assert_eq!(b.color().b, 1);
    assert_eq!(b.update(), 2);
    assert_eq!(b.color(), Color { r: 200, g: 700, b: 2 });
}

#[test]
fn background_rests_at_the_top_and_turns() {
    let mut b = Background::new();
    for step in 1..=CHANNEL_MAX {
        assert_eq!(b.update(), step);
    }
    assert_eq!(b.update(), CHANNEL_MAX);
    assert_eq!(b.update(), CHANNEL_MAX - 1);
    assert_eq!(b.update(), CHANNEL_MAX - 2);
}

#[test]
fn background_rests_at_the_bottom_and_turns() {
    let mut b = Background::new();
    for _ in 0..=CHANNEL_MAX {
        b.update();
    }
    for step in (0..CHANNEL_MAX).rev() {
        assert_eq!(b.update(), step);
    }
    assert_eq!(b.update(), 0);
    assert_eq!(b.update(), 1);
    assert_eq!(b.update(), 2);
}

#[test]
fn background_stays_in_range_and_moves_by_single_steps() {
    let mut b = Background::new();
    let mut last = 0;
    for _ in 0..5000 {
        let now = b.update();
        assert!(0 <= now && now <= CHANNEL_MAX);
        assert!((now - last).abs() <= 1);
        assert_eq!(b.color().r, 200);
        assert_eq!(b.color().g, 700);
        last = now;
    }
}

#[test]
fn background_repeats_after_two_sweeps_and_two_rests() {
    let mut a = Background::new();
    let mut b = Background::new();
    for _ in 0..(2 * CHANNEL_MAX + 2) {
        a.update();
    }
    for _ in 0..10 {
        assert_eq!(a.update(), b.update());
    }
}
