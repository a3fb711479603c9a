use ta::{Bar, Percent, RateOfChange};

fn round(x: f64) -> f64 {
    (x * 1000.0).round() / 1000.0
}

fn pct(p: Percent) -> f64 {
    p.num as f64 / p.den as f64
}

fn bar(close: i64) -> Bar {
    Bar::new().close(close)
}

#[test]
fn rate_of_change_test_new() {
    assert!(RateOfChange::new(0).is_err());
    assert!(RateOfChange::new(1).is_ok());
    assert!(RateOfChange::new(100_000).is_ok());
}

#[test]
fn test_next_f64() {
    // Prices scaled by one hundred, so that a price of 10.57 becomes the
    // integer 1057; the rate of change is scale-invariant.
    let mut roc = RateOfChange::new(3).unwrap();

    assert_eq!(round(pct(roc.calc(1000))), 0.0);
    assert_eq!(round(pct(roc.calc(1040))), 4.0);
    assert_eq!(round(pct(roc.calc(1057))), 5.7);
    assert_eq!(round(pct(roc.calc(1080))), 8.0);
    assert_eq!(round(pct(roc.calc(1090))), 4.808);
    assert_eq!(round(pct(roc.calc(1000))), -5.393);
}

#[test]
fn test_next_bar() {
    let mut roc = RateOfChange::new(3).unwrap();

    assert_eq!(round(pct(roc.next(&bar(1000)))), 0.0);
    assert_eq!(round(pct(roc.next(&bar(1040)))), 4.0);
    assert_eq!(round(pct(roc.next(&bar(1057)))), 5.7);
}

#[test]
fn rate_of_change_test_reset() {
    let mut roc = RateOfChange::new(3).unwrap();

    roc.calc(1230);
    roc.calc(1500);

    roc.reset();

    assert_eq!(round(pct(roc.calc(1000))), 0.0);
    assert_eq!(round(pct(roc.calc(1040))), 4.0);
    assert_eq!(round(pct(roc.calc(1057))), 5.7);
}
