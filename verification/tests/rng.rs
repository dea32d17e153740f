use std::collections::HashSet;
use xiangqi::rng::{pick_within_window, SmallRng};
use xiangqi::xiangqi::{Move, Square};

#[test]
fn rng_is_deterministic_per_seed() {
    let mut a = SmallRng::from_seed(42);
    let mut b = SmallRng::from_seed(42);
    for _ in 0..16 {
        assert_eq!(a.next_u64(), b.next_u64());
    }
}

#[test]
fn below_stays_in_range() {
    let mut rng = SmallRng::from_seed(7);
    for _ in 0..1000 {
        assert!(rng.below(13) < 13);
    }
}

fn mv4(f1: u8, r1: u8, f2: u8, r2: u8) -> Move {
    Move::new(Square::new(f1, r1).unwrap(), Square::new(f2, r2).unwrap())
}

#[test]
fn window_zero_picks_best() {
    let scores = vec![(mv4(0, 0, 0, 1), 50), (mv4(1, 0, 1, 1), 100), (mv4(2, 0, 2, 1), 80)];
    let mut rng = SmallRng::from_seed(1);
    for _ in 0..32 {
        assert_eq!(pick_within_window(&scores, 0, &mut rng), Some(mv4(1, 0, 1, 1)));
    }
}

#[test]
fn wide_window_eventually_picks_every_candidate() {
    let mv = |f1: u8| Move::new(Square::new(f1, 0).unwrap(), Square::new(f1, 1).unwrap());
    let scores = vec![(mv(0), 100), (mv(1), 95), (mv(2), 5), (mv(3), 90)];
    let mut seen = HashSet::new();
    for seed in 0..200 {
        let mut rng = SmallRng::from_seed(seed);
        seen.insert(pick_within_window(&scores, 20, &mut rng).unwrap());
    }
    assert!(seen.contains(&mv(0)) && seen.contains(&mv(1)) && seen.contains(&mv(3)));
    assert!(!seen.contains(&mv(2)), "far-behind move must never be picked");
}

#[test]
fn same_seed_gives_same_stream_of_bounded_draws() {
    let mut a = SmallRng::from_seed(2024);
    let mut b = SmallRng::from_seed(2024);
    for _ in 0..64 {
        assert_eq!(a.below(90), b.below(90));
    }
}

#[test]
fn different_seeds_give_different_streams() {
    let mut a = SmallRng::from_seed(1);
    let mut b = SmallRng::from_seed(2);
    assert_ne!(a.next_u64(), b.next_u64());
}

#[test]
fn empty_candidate_list_picks_nothing() {
    let mut rng = SmallRng::from_seed(3);
    assert_eq!(pick_within_window(&[], 10, &mut rng), None);
}
