use ta::{Bar, Minimum};

fn bar(low: i64) -> Bar {
    Bar::new().low(low)
}

#[test]
fn minimum_test_new() {
    assert!(Minimum::new(0).is_err());
    assert!(Minimum::new(1).is_ok());
}

#[test]
fn test_next() {
    // Prices scaled by ten, so that a price of 1.2 becomes the integer 12.
    let mut min = Minimum::new(3).unwrap();

    assert_eq!(min.calc(40), 40);
    assert_eq!(min.calc(12), 12);
    assert_eq!(min.calc(50), 12);
    assert_eq!(min.calc(30), 12);
    assert_eq!(min.calc(40), 30);
    assert_eq!(min.calc(60), 30);
    assert_eq!(min.calc(70), 40);
    assert_eq!(min.calc(80), 60);
    assert_eq!(min.calc(-90), -90);
    assert_eq!(min.calc(0), -90);
}

#[test]
fn minimum_test_next_with_bars() {
    let mut min = Minimum::new(3).unwrap();

    assert_eq!(min.next(&bar(40)), 40);
    assert_eq!(min.next(&bar(40)), 40);
    assert_eq!(min.next(&bar(12)), 12);
    assert_eq!(min.next(&bar(50)), 12);
}

#[test]
fn minimum_test_reset() {
    let mut min = Minimum::new(10).unwrap();

    assert_eq!(min.calc(5), 5);
    assert_eq!(min.calc(7), 5);

    min.reset();
    assert_eq!(min.calc(8), 8);
}

#[test]
fn minimum_test_default() {
    Minimum::default();
}

#[test]
fn minimum_test_display() {
    let indicator = Minimum::new(10).unwrap();
    assert_eq!(indicator.label(), "MIN(10)");
}
