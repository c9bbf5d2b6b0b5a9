use runner_core::score::Score;

#[test]
fn accumulation_is_five_milli_points_per_ms() {
    let mut s = Score::new();
    s.accumulate(1000);
    assert_eq!(s.milli, 5000);
    assert_eq!(s.points(), 5);
}

#[test]
fn split_of_frames_does_not_matter() {
    // The same elapsed total, split differently, gives the same score.
    let mut a = Score::new();
    for dt in [400u32, 400, 400] {
        a.accumulate(dt);
    }
    let mut b = Score::new();
    for dt in [16u32, 1184] {
        b.accumulate(dt);
    }
    assert_eq!(a.milli, 6000);
    assert_eq!(a.milli, b.milli);
    assert_eq!(a.points(), 6);
}

#[test]
fn score_never_decreases() {
    let mut s = Score::new();
    let mut last = 0u64;
    for dt in [0u32, 7, 16, 100, 0, 3] {
        s.accumulate(dt);
        assert!(s.milli >= last);
        last = s.milli;
    }
}

#[test]
fn line_is_score_and_whole_points() {
    assert_eq!(Score::new().line(), "Score: 0");
    assert_eq!(Score { milli: 6000 }.line(), "Score: 6");
    assert_eq!(Score { milli: 6999 }.line(), "Score: 6");
    assert_eq!(Score { milli: 123_456 }.line(), "Score: 123");
    assert_eq!(Score { milli: 10_000_000 }.line(), "Score: 10000");
}

#[test]
fn formatting_is_idempotent() {
    // Formatting reads the accumulator without changing it.
    let s = Score { milli: 31_415 };
    let first = s.line();
    let second = s.line();
    assert_eq!(first, second);
    assert_eq!(first, "Score: 31");
}
