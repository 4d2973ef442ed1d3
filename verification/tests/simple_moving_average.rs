use decimal_indicators::decimal::Dec;
use decimal_indicators::errors::IndicatorError;
use decimal_indicators::simple_moving_average::SimpleMovingAverage;
use rust_decimal::Decimal;

fn dec(mantissa: i64, scale: u32) -> Dec {
    Dec::new(mantissa as i128, scale).unwrap()
}

fn num(d: Dec) -> Decimal {
    Decimal::from_i128_with_scale(d.mantissa, d.scale)
}

#[test]
fn simple_moving_average_test_new() {
    assert!(SimpleMovingAverage::new(0).is_err());
    assert!(SimpleMovingAverage::new(1).is_ok());
}

#[test]
fn sma_new_zero_is_invalid_parameter() {
    assert_eq!(SimpleMovingAverage::new(0).err(), Some(IndicatorError::InvalidParameter));
    assert_eq!(IndicatorError::InvalidParameter.message(), "invalid parameter");
}

#[test]
fn sma_new_accepts_every_positive_period() {
    for period in [1usize, 2, 3, 9, 14, 100, 1000] {
        let sma = SimpleMovingAverage::new(period).unwrap();
        assert_eq!(sma.period(), period);
    }
}

#[test]
fn simple_moving_average_test_next() {
    let mut sma = SimpleMovingAverage::new(4).unwrap();
    assert_eq!(num(sma.next(dec(4, 0))), Decimal::new(40, 1));
    assert_eq!(num(sma.next(dec(5, 0))), Decimal::new(45, 1));
    assert_eq!(num(sma.next(dec(6, 0))), Decimal::new(50, 1));
    assert_eq!(num(sma.next(dec(6, 0))), Decimal::new(525, 2));
    assert_eq!(num(sma.next(dec(6, 0))), Decimal::new(575, 2));
    assert_eq!(num(sma.next(dec(6, 0))), Decimal::new(60, 1));
    assert_eq!(num(sma.next(dec(2, 0))), Decimal::new(50, 1));
}

#[test]
fn test_reset() {
    let mut sma = SimpleMovingAverage::new(4).unwrap();
    assert_eq!(num(sma.next(dec(40, 1))), Decimal::new(40, 1));
    assert_eq!(num(sma.next(dec(50, 1))), Decimal::new(45, 1));
    assert_eq!(num(sma.next(dec(60, 1))), Decimal::new(50, 1));

    sma.reset();
    assert_eq!(num(sma.next(dec(99, 0))), Decimal::new(99, 0));
}

#[test]
fn test_default() {
    let sma = SimpleMovingAverage::default();
    assert_eq!(sma.period(), 9);
}

#[test]
fn test_display() {
    let sma = SimpleMovingAverage::new(5).unwrap();
    assert_eq!(sma.label(), "SMA(5)");
}

#[test]
fn sma_label_writes_all_digits() {
    assert_eq!(SimpleMovingAverage::new(120).unwrap().label(), "SMA(120)");
    assert_eq!(SimpleMovingAverage::default().label(), "SMA(9)");
}

#[test]
fn sma_first_sample_is_returned_as_it_is() {
    for (m, s) in [(1i64, 0u32), (-7, 3), (123456789, 9), (15, 1)] {
        let mut sma = SimpleMovingAverage::new(3).unwrap();
        assert_eq!(sma.next(dec(m, s)), dec(m, s));
    }
    let mut sma = SimpleMovingAverage::new(3).unwrap();
    assert_eq!(sma.next(dec(0, 4)), dec(0, 0));
}

#[test]
fn sma_window_evicts_the_oldest_sample() {
    let mut sma = SimpleMovingAverage::new(2).unwrap();
    assert_eq!(num(sma.next(dec(10, 0))), Decimal::new(10, 0));
    assert_eq!(num(sma.next(dec(20, 0))), Decimal::new(15, 0));
    assert_eq!(num(sma.next(dec(40, 0))), Decimal::new(30, 0));
    assert_eq!(num(sma.next(dec(0, 0))), Decimal::new(20, 0));
}

#[test]
fn sma_preview_matches_next_and_changes_nothing() {
    let mut sma = SimpleMovingAverage::new(3).unwrap();
    sma.next(dec(3, 0));
    let seen = sma.preview(dec(6, 0));
    assert_eq!(seen.map(num), Some(Decimal::new(45, 1)));
    assert_eq!(sma.preview(dec(6, 0)), seen);
    assert_eq!(Some(sma.next(dec(6, 0))), seen);
}

#[test]
fn sma_try_next_refuses_overflow_and_keeps_state() {
    let max = Dec::new(79_228_162_514_264_337_593_543_950_335, 0).unwrap();
    let mut sma = SimpleMovingAverage::new(2).unwrap();
    assert_eq!(sma.try_next(max), Some(max));
    assert_eq!(sma.try_next(max), None);
    assert_eq!(sma.preview(max), None);
    assert_eq!(sma.try_next(dec(0, 0)).map(num), Some(Decimal::from_i128_with_scale(
        39_614_081_257_132_168_796_771_975_167,
        0,
    ) + Decimal::new(5, 1)));
}

#[test]
fn sma_reset_replays_like_fresh() {
    let mut used = SimpleMovingAverage::new(3).unwrap();
    for v in [5i64, 9, 13, 2, 8] {
        used.next(dec(v, 1));
    }
    used.reset();
    let mut fresh = SimpleMovingAverage::new(3).unwrap();
    for v in [7i64, 1, 4, 4, 9] {
        assert_eq!(used.next(dec(v, 2)), fresh.next(dec(v, 2)));
    }
}

#[test]
fn sma_of_zeros_is_the_zero_of_scale_zero() {
    let mut sma = SimpleMovingAverage::new(2).unwrap();
    assert_eq!(sma.next(dec(0, 2)), dec(0, 0));
    assert_eq!(sma.next(dec(0, 5)), dec(0, 0));
    assert_eq!(sma.next(dec(30, 1)), dec(15, 1));
}
