use thruster_sim::population::{Outcome, Population, ScoreKey, Seed};
use thruster_sim::progress::{Progress, FRONTIER_TIME_LIMIT};

fn key(score: f64) -> ScoreKey {
    ScoreKey::from_bits(score.to_bits())
}

fn outcome(point: &str, score: f64, improved: bool, stationary: bool) -> Option<Outcome<String>> {
    Some(Outcome { point: point.to_string(), score: key(score), improved, stationary })
}

fn fresh(points: &[&str]) -> Population<String> {
    let mut p = Population::new(FRONTIER_TIME_LIMIT);
    p.reset(points.iter().map(|s| s.to_string()).collect());
    p
}

#[test]
fn reset_gives_fresh_unscored_seeds() {
    let p = fresh(&["a", "b", "c"]);
    assert_eq!(p.len(), 3);
    for (i, seed) in p.seeds().iter().enumerate() {
        assert_eq!(seed.index, i);
        assert_eq!(seed.score, ScoreKey::Unscored);
        assert_eq!(seed.progress, Progress { time: 0, frontier_time: 0, done: false });
    }
    assert_eq!(p.seeds()[1].point, "b");
    assert_eq!(p.frontier_time_limit(), 25);
}

#[test]
fn reset_discards_previous_seeds() {
    let mut p = fresh(&["a", "b", "c"]);
    p.reset(vec!["x".to_string()]);
    assert_eq!(p.len(), 1);
    assert_eq!(p.seeds()[0].point, "x");
    assert_eq!(p.seeds()[0].index, 0);
}

#[test]
fn reset_with_no_points_is_empty() {
    let mut p = fresh(&["a"]);
    p.reset(Vec::new());
    assert_eq!(p.len(), 0);
    assert_eq!(p.step(Vec::new()), 0);
}

#[test]
fn step_keeps_population_size() {
    let mut p = fresh(&["a", "b", "c", "d"]);
    let ranked = p.step(vec![
        outcome("a1", 1.0, true, false),
        outcome("b1", 3.0, true, false),
        outcome("c1", 2.0, true, false),
        outcome("d1", -5.0, true, false),
    ]);
    assert_eq!(p.len(), 4);
    assert_eq!(ranked, 4);
}

#[test]
fn step_orders_by_descending_score() {
    let mut p = fresh(&["a", "b", "c", "d", "e"]);
    p.step(vec![
        outcome("a1", 1.0, true, false),
        outcome("b1", 3.0, true, false),
        outcome("c1", -2.5, true, false),
        outcome("d1", 3.0, true, false),
        outcome("e1", f64::NEG_INFINITY, true, false),
    ]);
    let order: Vec<usize> = p.seeds().iter().map(|s| s.index).collect();
    assert_eq!(order, vec![1, 3, 0, 2, 4]);
    let points: Vec<&str> = p.seeds().iter().map(|s| s.point.as_str()).collect();
    assert_eq!(points, vec!["b1", "d1", "a1", "c1", "e1"]);
}

#[test]
fn nan_scores_are_kept_but_not_ranked() {
    let mut p = fresh(&["a", "b", "c"]);
    let ranked = p.step(vec![
        outcome("a1", f64::NAN, true, false),
        outcome("b1", 0.5, true, false),
        outcome("c1", -0.5, true, false),
    ]);
    assert_eq!(ranked, 2);
    assert_eq!(p.len(), 3);
    assert_eq!(p.seeds()[0].index, 1);
    assert_eq!(p.seeds()[1].index, 2);
    assert_eq!(p.seeds()[2].index, 0);
    assert_eq!(p.seeds()[2].score, ScoreKey::Unordered);
}

#[test]
fn step_advances_progress() {
    let mut p = fresh(&["a", "b"]);
    p.step(vec![outcome("a1", 2.0, true, false), outcome("b1", 1.0, false, false)]);
    let a = &p.seeds()[0];
    assert_eq!(a.index, 0);
    assert_eq!(a.progress, Progress { time: 1, frontier_time: 1, done: false });
    let b = &p.seeds()[1];
    assert_eq!(b.progress, Progress { time: 1, frontier_time: 0, done: false });
}

#[test]
fn stationary_seed_stops() {
    let mut p = fresh(&["a", "b"]);
    p.step(vec![outcome("a1", 2.0, true, true), outcome("b1", 1.0, true, false)]);
    assert!(p.seeds()[0].progress.done);
    assert!(!p.seeds()[1].progress.done);
    let pending = p.pending();
    assert_eq!(pending, vec![1]);
}

#[test]
fn stagnant_seed_stops_and_keeps_its_score() {
    let mut p = fresh(&["a"]);
    p.step(vec![outcome("p0", 10.0, true, false)]);
    for t in 0..FRONTIER_TIME_LIMIT {
        assert_eq!(p.pending(), vec![0], "still running after {} stalled steps", t);
        p.step(vec![outcome("p", 10.0, false, false)]);
    }
    assert!(!p.seeds()[0].progress.done);
    p.step(vec![outcome("last", 10.05, false, false)]);
    let seed = &p.seeds()[0];
    assert!(seed.progress.done);
    assert_eq!(seed.progress.time, 27);
    assert_eq!(seed.progress.frontier_time, 1);
    assert!(p.pending().is_empty());
    let before = seed.score;
    p.step(vec![None]);
    assert_eq!(p.seeds()[0].score, before);
    assert_eq!(p.seeds()[0].point, "last");
    assert_eq!(p.seeds()[0].progress.time, 27);
}

#[test]
fn lookup_index_follows_reordering() {
    let mut p = fresh(&["a", "b", "c"]);
    p.step(vec![
        outcome("a1", 1.0, true, false),
        outcome("b1", 2.0, true, false),
        outcome("c1", 3.0, true, false),
    ]);
    assert_eq!(p.lookup_index(0), Some(2));
    assert_eq!(p.lookup_index(2), Some(0));
    assert_eq!(p.lookup_index(3), None);
    let pos = p.lookup_index(1).unwrap();
    assert_eq!(p.seeds()[pos].point, "b1");
}

#[test]
fn same_outcomes_give_same_population() {
    let run = || {
        let mut p = fresh(&["a", "b", "c"]);
        for i in 0..5 {
            let s = i as f64;
            p.step(vec![
                outcome("a", s, true, false),
                outcome("b", 2.0 * s, i % 2 == 0, false),
                outcome("c", -s, false, false),
            ]);
        }
        p.seeds()
            .iter()
            .map(|s: &Seed<String>| (s.index, s.score, s.progress))
            .collect::<Vec<_>>()
    };
    assert_eq!(run(), run());
}

#[test]
fn score_keys_follow_total_order() {
    let values = [
        f64::NEG_INFINITY,
        -1.0e300,
        -1.0,
        -f64::MIN_POSITIVE,
        -0.0,
        0.0,
        f64::MIN_POSITIVE,
        1.0,
        2.5,
        f64::INFINITY,
    ];
    for w in values.windows(2) {
        let (a, b) = (key(w[0]), key(w[1]));
        assert!(b.at_least(&a));
        assert!(!a.at_least(&b), "{} should rank below {}", w[0], w[1]);
    }
    assert!(key(f64::NEG_INFINITY).at_least(&ScoreKey::Unscored));
    assert!(!ScoreKey::Unscored.at_least(&key(f64::NEG_INFINITY)));
    assert!(ScoreKey::Unscored.at_least(&ScoreKey::Unordered));
}

#[test]
fn score_key_values() {
    assert_eq!(key(0.0), ScoreKey::Ordered(0));
    assert_eq!(key(-0.0), ScoreKey::Ordered(-1));
    assert_eq!(key(1.0), ScoreKey::Ordered(0x3FF0_0000_0000_0000));
    assert_eq!(key(-1.0), ScoreKey::Ordered(-0x3FF0_0000_0000_0000 - 1));
    assert_eq!(key(f64::INFINITY), ScoreKey::Ordered(0x7FF0_0000_0000_0000));
    assert_eq!(key(f64::NAN), ScoreKey::Unordered);
    assert_eq!(key(-f64::NAN), ScoreKey::Unordered);
    assert!(key(1.0).ranked());
    assert!(ScoreKey::Unscored.ranked());
    assert!(!ScoreKey::Unordered.ranked());
}

#[test]
fn progress_advance_rules() {
    let p = Progress::new();
    let q = p.advance(false, false, 2);
    assert_eq!(q, Progress { time: 1, frontier_time: 0, done: false });
    let q = q.advance(false, false, 2).advance(false, false, 2);
    assert_eq!(q, Progress { time: 3, frontier_time: 0, done: true });
    let r = Progress { time: 5, frontier_time: 4, done: false }.advance(true, false, 0);
    assert_eq!(r, Progress { time: 6, frontier_time: 6, done: false });
    let s = Progress::new().advance(true, true, 25);
    assert!(s.done);
}

#[test]
fn equal_scores_keep_previous_order() {
    let mut p = fresh(&["a", "b", "c"]);
    p.step(vec![
        outcome("a1", 1.0, true, false),
        outcome("b1", 2.0, true, false),
        outcome("c1", 3.0, true, false),
    ]);
    let order: Vec<usize> = p.seeds().iter().map(|s| s.index).collect();
    assert_eq!(order, vec![2, 1, 0]);
    p.step(vec![
        outcome("c2", 5.0, true, false),
        outcome("b2", 5.0, true, false),
        outcome("a2", 5.0, true, false),
    ]);
    let order: Vec<usize> = p.seeds().iter().map(|s| s.index).collect();
    assert_eq!(order, vec![2, 1, 0]);
    let points: Vec<&str> = p.seeds().iter().map(|s| s.point.as_str()).collect();
    assert_eq!(points, vec!["c2", "b2", "a2"]);
}

#[test]
fn unscored_seeds_rank_below_scored_ones() {
    let mut p = fresh(&["a", "b"]);
    p.step(vec![outcome("a1", 1.0, true, true), outcome("b1", f64::NEG_INFINITY, true, false)]);
    assert_eq!(p.seeds()[0].index, 0);
    assert_eq!(p.seeds()[1].index, 1);
    assert_eq!(p.seeds()[1].score, key(f64::NEG_INFINITY));
    assert!(p.seeds()[1].score.at_least(&ScoreKey::Unscored));
}
