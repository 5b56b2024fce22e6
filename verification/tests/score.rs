use rust_pong::state::score::Score;

#[test]
fn score_new_holds_what_it_was_given() {
    let s = Score::new(0, 0);
    assert_eq!(s.player1, 0);
    assert_eq!(s.player2, 0);
    let t = Score::new(3, 7);
    assert_eq!(t.player1, 3);
    assert_eq!(t.player2, 7);
}

#[test]
fn goal_player_1_counts_for_player_1_only() {
    let mut s = Score::new(0, 5);
    s.goal_player_1();
    assert_eq!(s, Score::new(1, 5));
    s.goal_player_1();
    assert_eq!(s, Score::new(2, 5));
}

#[test]
fn goal_player_2_counts_for_player_2_only() {
    let mut s = Score::new(4, 0);
    s.goal_player_2();
    assert_eq!(s, Score::new(4, 1));
    s.goal_player_2();
    assert_eq!(s, Score::new(4, 2));
}

#[test]
fn goals_count_up_to_the_last_number() {
    let mut s = Score::new(i32::MAX - 1, i32::MAX - 1);
    s.goal_player_1();
    s.goal_player_2();
    assert_eq!(s, Score::new(i32::MAX, i32::MAX));
}

#[test]
fn reset_score_sets_both_to_zero() {
    let mut s = Score::new(2, 1);
    s.reset_score();
    assert_eq!(s, Score::new(0, 0));
    s.reset_score();
    assert_eq!(s, Score::new(0, 0));
}

#[test]
fn format_of_a_fresh_match() {
    assert_eq!(Score::format(0, 0), "0 : 0");
}

#[test]
fn format_writes_both_counters_in_decimal() {
    assert_eq!(Score::format(1, 0), "1 : 0");
    assert_eq!(Score::format(0, 1), "0 : 1");
    assert_eq!(Score::format(9, 10), "9 : 10");
    assert_eq!(Score::format(12, 7), "12 : 7");
    assert_eq!(Score::format(100, 1001), "100 : 1001");
    assert_eq!(Score::format(2_147_483_647, 1_000_000_000), "2147483647 : 1000000000");
}

#[test]
fn format_puts_a_minus_before_a_negative_counter() {
    assert_eq!(Score::format(-1, -10), "-1 : -10");
    assert_eq!(Score::format(i32::MIN, 5), "-2147483648 : 5");
}

#[test]
fn format_agrees_with_the_standard_numerals() {
    for a in [0, 1, 9, 10, 11, 99, 100, 101, 12345, i32::MAX, -7, -100, i32::MIN] {
        for b in [0, 5, 10, 999, -1] {
            assert_eq!(Score::format(a, b), format!("{} : {}", a, b));
        }
    }
}
