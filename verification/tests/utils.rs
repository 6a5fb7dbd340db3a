//! Timing helper and seeded random source.
use frostfire::seeded_rng;
use frostfire::utils::time_execution;
use rand::Rng;

#[test]
fn time_execution_returns_the_result_of_the_closure() {
    let (result, duration) = time_execution(|| {
        let mut sum: u64 = 0;
        for i in 0..1000u64 {
            sum += i;
        }
        sum
    });
    assert_eq!(result, 499_500);
    assert!(duration.as_secs() < 20);
}

#[test]
fn time_execution_runs_the_closure_once() {
    let mut calls = 0;
    let (result, _) = time_execution(|| {
        calls += 1;
        String::from("done")
    });
    assert_eq!(result, "done");
    assert_eq!(calls, 1);
}

#[test]
fn equal_seeds_give_equal_streams() {
    let mut a = seeded_rng(123);
    let mut b = seeded_rng(123);
    for _ in 0..1000 {
        assert_eq!(a.gen::<u64>(), b.gen::<u64>());
    }
}

#[test]
fn different_seeds_give_different_streams() {
    let mut a = seeded_rng(1);
    let mut b = seeded_rng(2);
    let xs: Vec<u64> = (0..8).map(|_| a.gen()).collect();
    let ys: Vec<u64> = (0..8).map(|_| b.gen()).collect();
    assert_ne!(xs, ys);
}

#[test]
fn draws_lie_in_the_unit_interval() {
    let mut rng = seeded_rng(42);
    for _ in 0..10_000 {
        let u: f64 = rng.gen();
        assert!((0.0..1.0).contains(&u));
    }
}
