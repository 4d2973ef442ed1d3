use decimal_indicators::bar::Bar;
use decimal_indicators::decimal::{Dec, MAX_MANTISSA, MAX_SCALE};
use rust_decimal::Decimal;

fn dec(mantissa: i64, scale: u32) -> Dec {
    Dec::new(mantissa as i128, scale).unwrap()
}

#[test]
fn dec_new_checks_the_range() {
    assert_eq!(Dec::new(5, 0), Some(Dec { mantissa: 5, scale: 0 }));
    assert_eq!(Dec::new(-5, 28), Some(Dec { mantissa: -5, scale: 28 }));
    assert_eq!(Dec::new(5, 29), None);
    assert!(Dec::new(MAX_MANTISSA, MAX_SCALE).is_some());
    assert!(Dec::new(-MAX_MANTISSA, 0).is_some());
    assert_eq!(Dec::new(MAX_MANTISSA + 1, 0), None);
    assert_eq!(Dec::new(-MAX_MANTISSA - 1, 0), None);
    assert_eq!(Dec::new(i128::MIN, 0), None);
}

#[test]
fn dec_limits_are_those_of_the_decimal_arithmetic() {
    assert_eq!(Decimal::MAX.mantissa(), MAX_MANTISSA);
    assert_eq!(Decimal::MIN.mantissa(), -MAX_MANTISSA);
    assert_eq!(Decimal::MAX_SCALE, MAX_SCALE);
}

#[test]
fn dec_constants() {
    assert_eq!(Dec::zero(), Dec { mantissa: 0, scale: 0 });
    assert_eq!(Dec::one(), Dec { mantissa: 1, scale: 0 });
    assert_eq!(Dec::hundred(), Dec { mantissa: 100, scale: 0 });
    assert_eq!(Dec::from_usize(14), Dec { mantissa: 14, scale: 0 });
    assert_eq!(Dec::from_usize(usize::MAX).mantissa, usize::MAX as i128);
}

#[test]
fn dec_abs_and_is_zero() {
    assert_eq!(dec(-35, 1).abs(), dec(35, 1));
    assert_eq!(dec(35, 1).abs(), dec(35, 1));
    assert_eq!(dec(0, 3).abs(), dec(0, 3));
    assert!(dec(0, 3).is_zero());
    assert!(!dec(1, 28).is_zero());
    assert_eq!(Dec::new(-MAX_MANTISSA, 0).unwrap().abs(), Dec::new(MAX_MANTISSA, 0).unwrap());
}

#[test]
fn dec_lt_compares_the_numbers() {
    assert!(dec(1, 0).lt(dec(2, 0)));
    assert!(!dec(2, 0).lt(dec(1, 0)));
    assert!(!dec(1, 0).lt(dec(1, 0)));
    assert!(!dec(10, 1).lt(dec(1, 0)));
    assert!(!dec(1, 0).lt(dec(100, 2)));
    assert!(dec(199, 2).lt(dec(2, 0)));
    assert!(dec(-2, 0).lt(dec(-199, 2)));
    assert!(dec(-1, 28).lt(dec(0, 0)));
    assert!(Dec::new(MAX_MANTISSA, 28).unwrap().lt(Dec::new(MAX_MANTISSA, 0).unwrap()));
    assert!(Dec::new(-MAX_MANTISSA, 0).unwrap().lt(Dec::new(MAX_MANTISSA, 28).unwrap()));
}

#[test]
fn dec_max_keeps_the_first_of_equals() {
    assert_eq!(dec(1, 0).max(dec(2, 0)), dec(2, 0));
    assert_eq!(dec(3, 0).max(dec(2, 0)), dec(3, 0));
    assert_eq!(dec(10, 1).max(dec(1, 0)), dec(10, 1));
    assert_eq!(dec(1, 0).max(dec(10, 1)), dec(1, 0));
}

#[test]
fn bar_constructors() {
    let z = Bar::zero();
    assert_eq!(z, Bar::flat(dec(0, 0)));
    let b = Bar::new(dec(1, 0), dec(2, 0), dec(3, 0), dec(4, 0), dec(5, 0));
    assert_eq!(b.open, dec(1, 0));
    assert_eq!(b.high, dec(2, 0));
    assert_eq!(b.low, dec(3, 0));
    assert_eq!(b.close, dec(4, 0));
    assert_eq!(b.volume, dec(5, 0));
}
