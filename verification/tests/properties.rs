use ta::{Bar, Error, FastStochastic, Maximum, Minimum, Percent, RateOfChange};

fn pct(p: Percent) -> f64 {
    p.num as f64 / p.den as f64
}

#[test]
fn zero_length_gives_invalid_parameter() {
    assert!(matches!(Minimum::new(0), Err(Error::InvalidParameter)));
    assert!(matches!(Maximum::new(0), Err(Error::InvalidParameter)));
    assert!(matches!(FastStochastic::new(0), Err(Error::InvalidParameter)));
    assert!(matches!(RateOfChange::new(0), Err(Error::InvalidParameter)));
}

#[test]
fn maximum_tracks_the_running_high() {
    let mut max = Maximum::new(3).unwrap();
    assert_eq!(max.calc(4), 4);
    assert_eq!(max.calc(1), 4);
    assert_eq!(max.calc(5), 5);
    assert_eq!(max.calc(3), 5);
    assert_eq!(max.calc(2), 5);
    assert_eq!(max.calc(2), 3);
    assert_eq!(max.next(&Bar::new().high(9)), 9);
}

#[test]
fn symmetry_of_minimum_and_maximum() {
    let inputs = [4, 12, -5, 0, 7, 7, -3, 100, 2, -5];
    let mut min = Minimum::new(4).unwrap();
    let mut max = Maximum::new(4).unwrap();
    for v in inputs {
        let lo = min.calc(v);
        let hi = max.calc(-v);
        assert_eq!(hi, -lo);
    }
}

#[test]
fn oscillator_degeneracy_on_constant_input() {
    let mut stoch = FastStochastic::new(5).unwrap();
    for _ in 0..10 {
        let p = stoch.calc(7);
        assert_eq!(p, Percent { num: 50, den: 1 });
        assert_eq!(pct(p), 50.0);
    }
}

#[test]
fn oscillator_stays_within_bounds() {
    let inputs = [3, -8, 15, 15, 0, 42, -1, 7, 9, 9, -20, 33];
    let mut stoch = FastStochastic::new(4).unwrap();
    for v in inputs {
        let p = stoch.calc(v);
        assert!(p.den >= 1);
        assert!(p.num >= 0);
        assert!(p.num <= 100 * p.den);
    }
}

#[test]
fn oscillator_reports_exact_rationals() {
    let mut stoch = FastStochastic::new(3).unwrap();
    stoch.calc(0);
    stoch.calc(200);
    stoch.calc(100);
    stoch.calc(120);
    // Window now 100, 120, 115: low 100, high 120, latest 115.
    let p = stoch.calc(115);
    assert_eq!(p, Percent { num: 1500, den: 20 });
}

#[test]
fn reset_then_replay_reproduces_outputs() {
    let inputs = [5, -2, 9, 9, 1, 0, 14, -7, 3, 3];

    let mut min = Minimum::new(3).unwrap();
    let first: Vec<i64> = inputs.iter().map(|v| min.calc(*v)).collect();
    min.reset();
    let second: Vec<i64> = inputs.iter().map(|v| min.calc(*v)).collect();
    assert_eq!(first, second);

    let mut stoch = FastStochastic::new(3).unwrap();
    let first: Vec<Percent> = inputs.iter().map(|v| stoch.calc(*v)).collect();
    stoch.reset();
    let second: Vec<Percent> = inputs.iter().map(|v| stoch.calc(*v)).collect();
    assert_eq!(first, second);

    let mut roc = RateOfChange::new(3).unwrap();
    let first: Vec<Percent> = inputs.iter().map(|v| roc.calc(*v)).collect();
    roc.reset();
    let second: Vec<Percent> = inputs.iter().map(|v| roc.calc(*v)).collect();
    assert_eq!(first, second);
}

#[test]
fn sliding_minimum_matches_naive_rescan() {
    // A fixed pseudo-random walk, checked after every step against a naive
    // recomputation of the minimum of the last `length` inputs.
    let mut seed: i64 = 1;
    let mut inputs: Vec<i64> = Vec::new();
    for _ in 0..200 {
        seed = (seed * 1103515245 + 12345) % 2147483648;
        inputs.push(seed % 1000 - 500);
    }
    for length in [1usize, 2, 3, 7, 50] {
        let mut min = Minimum::new(length as u32).unwrap();
        let mut max = Maximum::new(length as u32).unwrap();
        for i in 0..inputs.len() {
            let got_min = min.calc(inputs[i]);
            let got_max = max.calc(inputs[i]);
            let start = if i + 1 > length { i + 1 - length } else { 0 };
            let naive_min = *inputs[start..=i].iter().min().unwrap();
            let naive_max = *inputs[start..=i].iter().max().unwrap();
            assert_eq!(got_min, naive_min);
            assert_eq!(got_max, naive_max);
        }
    }
}

#[test]
fn window_of_length_one_follows_the_input() {
    let mut min = Minimum::new(1).unwrap();
    assert_eq!(min.calc(5), 5);
    assert_eq!(min.calc(9), 9);
    assert_eq!(min.calc(-3), -3);
}

#[test]
fn expiring_tie_is_not_mistaken_for_the_survivor() {
    let mut min = Minimum::new(2).unwrap();
    assert_eq!(min.calc(3), 3);
    assert_eq!(min.calc(3), 3);
    assert_eq!(min.calc(5), 3);
    assert_eq!(min.calc(5), 5);
}

#[test]
fn rate_of_change_first_call_reports_zero() {
    let mut roc = RateOfChange::new(5).unwrap();
    assert_eq!(roc.calc(123), Percent { num: 0, den: 1 });
}

#[test]
fn rate_of_change_zero_baseline_is_undefined_quotient() {
    let mut roc = RateOfChange::new(3).unwrap();
    roc.calc(0);
    let p = roc.calc(5);
    assert_eq!(p.den, 0);
    assert_eq!(p.num, 500);
    assert!(pct(p).is_infinite());
}

#[test]
fn rate_of_change_baseline_slides_after_warmup() {
    let mut roc = RateOfChange::new(2).unwrap();
    assert_eq!(pct(roc.calc(10)), 0.0);
    assert_eq!(pct(roc.calc(9)).round(), -10.0);
    assert_eq!(pct(roc.calc(20)).round(), 100.0);
    // Baseline is now the value two steps back, no longer the first one.
    assert_eq!(pct(roc.calc(18)).round(), 100.0);
}

#[test]
fn default_lengths_follow_convention() {
    assert_eq!(Minimum::default().label(), "MIN(14)");
    assert_eq!(Maximum::default().label(), "MAX(14)");
    assert_eq!(FastStochastic::default().label(), "FAST_STOCH(14)");
    assert_eq!(RateOfChange::default().label(), "ROC(9)");
    assert_eq!(FastStochastic::default().length(), 14);
}

#[test]
fn labels_embed_multi_digit_lengths() {
    assert_eq!(Minimum::new(100_000).unwrap().label(), "MIN(100000)");
    assert_eq!(RateOfChange::new(907).unwrap().label(), "ROC(907)");
}

#[test]
fn bar_builder_sets_each_field() {
    let b = Bar::new().high(3).low(1).close(2);
    assert_eq!(b.high, 3);
    assert_eq!(b.low, 1);
    assert_eq!(b.close, 2);
}

#[test]
fn large_window_warms_up_gradually() {
    let mut min = Minimum::new(100_000).unwrap();
    assert_eq!(min.calc(7), 7);
    assert_eq!(min.calc(4), 4);
    assert_eq!(min.calc(11), 4);
}
