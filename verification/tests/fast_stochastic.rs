use ta::{Bar, FastStochastic, Percent};

fn pct(p: Percent) -> f64 {
    p.num as f64 / p.den as f64
}

#[test]
fn fast_stochastic_test_new() {
    assert!(FastStochastic::new(0).is_err());
    assert!(FastStochastic::new(1).is_ok());
}

#[test]
fn test_next_with_f64() {
    let mut stoch = FastStochastic::new(3).unwrap();
    assert_eq!(pct(stoch.calc(0)), 50.0);
    assert_eq!(pct(stoch.calc(200)), 100.0);
    assert_eq!(pct(stoch.calc(100)), 50.0);
    assert_eq!(pct(stoch.calc(120)), 20.0);
    assert_eq!(pct(stoch.calc(115)), 75.0);
}

#[test]
fn fast_stochastic_test_next_with_bars() {
    let test_data = vec![
        // high, low, close, expected
        (20, 20, 20, 50.0),  // min = 20, max = 20
        (30, 10, 25, 75.0),  // min = 10, max = 30
        (40, 20, 16, 20.0),  // min = 10, max = 40
        (35, 15, 19, 30.0),  // min = 10, max = 40
        (30, 20, 25, 40.0),  // min = 15, max = 40
        (35, 25, 30, 75.0),  // min = 15, max = 35
    ];

    let mut stoch = FastStochastic::new(3).unwrap();

    for (high, low, close, expected) in test_data {
        let input_bar = Bar::new().high(high).low(low).close(close);
        assert_eq!(pct(stoch.next(&input_bar)), expected);
    }
}

#[test]
fn fast_stochastic_test_reset() {
    // Prices scaled by two, so that a price of 12.5 becomes the integer 25.
    let mut indicator = FastStochastic::new(10).unwrap();
    assert_eq!(pct(indicator.calc(20)), 50.0);
    assert_eq!(pct(indicator.calc(420)), 100.0);
    assert_eq!(pct(indicator.calc(20)), 0.0);
    assert_eq!(pct(indicator.calc(120)), 25.0);

    indicator.reset();
    assert_eq!(pct(indicator.calc(20)), 50.0);
    assert_eq!(pct(indicator.calc(40)), 100.0);
    assert_eq!(pct(indicator.calc(25)), 25.0);
}

#[test]
fn fast_stochastic_test_default() {
    FastStochastic::default();
}

#[test]
fn fast_stochastic_test_display() {
    let indicator = FastStochastic::new(21).unwrap();
    assert_eq!(indicator.label(), "FAST_STOCH(21)");
}
