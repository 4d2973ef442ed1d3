use decimal_indicators::bar::Bar;
use decimal_indicators::decimal::Dec;
use decimal_indicators::directional_movement_index::{
    directional_index, directional_indicator, directional_movement, get_adx_indicator, moves,
    normaliser, percent, preview_adx_indicator, DirectionalMovementIndex,
};
use decimal_indicators::model::ADX;
use decimal_indicators::rolling_moving_average::RollingMovingAverage;
use rust_decimal::prelude::FromPrimitive;
use rust_decimal::Decimal;
use ta::{Close, DataItem, High, Low, Open, Volume};

fn dec(mantissa: i64, scale: u32) -> Dec {
    Dec::new(mantissa as i128, scale).unwrap()
}

fn num(d: Dec) -> Decimal {
    Decimal::from_i128_with_scale(d.mantissa, d.scale)
}

fn from_f64(x: f64) -> Dec {
    let d = Decimal::from_f64(x).unwrap();
    Dec::new(d.mantissa(), d.scale()).unwrap()
}

fn to_bar(di: &DataItem) -> Bar {
    Bar::new(
        from_f64(di.open()),
        from_f64(di.high()),
        from_f64(di.low()),
        from_f64(di.close()),
        from_f64(di.volume()),
    )
}

fn item(open: f64, high: f64, low: f64, close: f64, volume: f64) -> DataItem {
    DataItem::builder().close(close).open(open).high(high).low(low).volume(volume).build().unwrap()
}

fn hlc(high: i64, low: i64, close: i64) -> Bar {
    Bar::new(dec(close, 0), dec(high, 0), dec(low, 0), dec(close, 0), dec(1, 0))
}

fn pending() -> ADX {
    ADX { adx_opt: None, di_plus_opt: None, di_minus_opt: None }
}

#[test]
fn directional_movement_index_test_new() {
    assert!(DirectionalMovementIndex::new(0).is_err());
    assert!(DirectionalMovementIndex::new(1).is_ok());
}

#[test]
fn directional_movement_index_test_next() {
    let mut dmi = DirectionalMovementIndex::new(3).unwrap();

    let di1 = item(0.0984338, 8.2830820, 0.0831237, 5.3537490, 1.0);
    let di2 = item(5.3537490, 16.9121161, 3.0669901, 4.0971314, 1.0);
    let di3 = item(4.0971314, 4.3877257, 1.1157023, 1.5416779, 1.0);
    let di4 = item(1.5416779, 2.3969461, 0.7421172, 0.8320898, 1.0);
    let di5 = item(0.8320898, 1.2149281, 0.2187003, 0.3684033, 1.0);
    let di6 = item(0.3684033, 1.7971078, 0.2623044, 0.8053857, 1.0);
    let di7 = item(0.8053857, 0.9516707, 0.3649837, 0.3877222, 1.0);

    println!("1) {:?}", dmi.next(&to_bar(&di1)).di_plus_opt);
    println!("2) {:?}", dmi.next(&to_bar(&di2)).di_plus_opt);
    println!("3) {:?}", dmi.next(&to_bar(&di3)).di_plus_opt);
    println!("4) {:?}", dmi.next(&to_bar(&di4)).di_plus_opt);
    println!("5) {:?}", dmi.next(&to_bar(&di5)).di_plus_opt);
    println!("6) {:?}", dmi.next(&to_bar(&di6)).di_plus_opt);
    println!("7) {:?}", dmi.next(&to_bar(&di7)).di_plus_opt);
}

#[test]
fn dmi_first_bar_is_all_pending() {
    for period in [1usize, 2, 14] {
        for bar in [hlc(10, 8, 9), hlc(0, 0, 0), hlc(1000000, -5, 3)] {
            let mut dmi = DirectionalMovementIndex::new(period).unwrap();
            assert_eq!(dmi.next(&bar), pending());
        }
    }
}

#[test]
fn dmi_period_one_exact_values() {
    let mut dmi = DirectionalMovementIndex::new(1).unwrap();
    assert_eq!(dmi.next(&hlc(10, 8, 8)), pending());
    let out = dmi.next(&hlc(12, 8, 10));
    assert_eq!(out.di_plus_opt.map(num), Some(Decimal::new(50, 0)));
    assert_eq!(out.di_minus_opt.map(num), Some(Decimal::new(0, 0)));
    assert_eq!(out.adx_opt.map(num), Some(Decimal::new(100, 0)));
    let out = dmi.next(&hlc(11, 3, 4));
    assert_eq!(out.di_plus_opt.map(num), Some(Decimal::new(0, 0)));
    assert_eq!(out.di_minus_opt.map(num), Some(Decimal::new(625, 1)));
    assert_eq!(out.adx_opt.map(num), Some(Decimal::new(100, 0)));
}

#[test]
fn dmi_each_field_has_its_own_clock() {
    let mut dmi = DirectionalMovementIndex::new(2).unwrap();
    assert_eq!(dmi.next(&hlc(10, 8, 9)), pending());
    assert_eq!(dmi.next(&hlc(12, 9, 11)), pending());

    let third = dmi.next(&hlc(11, 7, 8));
    let di = Decimal::new(1, 0) / Decimal::new(325, 2) * Decimal::new(100, 0);
    assert_eq!(third.adx_opt, None);
    assert_eq!(third.di_plus_opt.map(num), Some(di));
    assert_eq!(third.di_minus_opt.map(num), Some(di));

    let fourth = dmi.next(&hlc(14, 10, 13));
    let di_plus = Decimal::new(2, 0) / Decimal::new(4625, 3) * Decimal::new(100, 0);
    let di_minus = Decimal::new(5, 1) / Decimal::new(4625, 3) * Decimal::new(100, 0);
    let dx = ((di_plus - di_minus) / (di_plus + di_minus)).abs();
    let adx = (Decimal::new(0, 0) + dx) / Decimal::new(2, 0) * Decimal::new(100, 0);
    assert_eq!(fourth.di_plus_opt.map(num), Some(di_plus));
    assert_eq!(fourth.di_minus_opt.map(num), Some(di_minus));
    assert_eq!(fourth.adx_opt.map(num), Some(adx));
    assert_eq!(num(fourth.di_plus_opt.unwrap()).round_dp(4), Decimal::new(432432, 4));
    assert_eq!(num(fourth.di_minus_opt.unwrap()).round_dp(4), Decimal::new(108108, 4));
    assert_eq!(num(fourth.adx_opt.unwrap()).round_dp(4), Decimal::new(300000, 4));
}

#[test]
fn dmi_zero_denominator_leaves_adx_pending() {
    let mut dmi = DirectionalMovementIndex::new(1).unwrap();
    assert_eq!(dmi.next(&hlc(10, 8, 9)), pending());
    let out = dmi.next(&hlc(10, 8, 9));
    assert_eq!(out.di_plus_opt.map(num), Some(Decimal::new(0, 0)));
    assert_eq!(out.di_minus_opt.map(num), Some(Decimal::new(0, 0)));
    assert_eq!(out.adx_opt, None);
}

#[test]
fn dmi_flat_market_gives_zero_indicators_and_a_pending_adx() {
    let mut dmi = DirectionalMovementIndex::new(1).unwrap();
    assert_eq!(dmi.try_next(&hlc(5, 5, 5)), Some(pending()));
    let flat = ADX { adx_opt: None, di_plus_opt: Some(dec(0, 0)), di_minus_opt: Some(dec(0, 0)) };
    assert_eq!(dmi.preview(&hlc(5, 5, 5)), Some(flat));
    assert_eq!(dmi.try_next(&hlc(5, 5, 5)), Some(flat));
    assert_eq!(dmi.next(&hlc(5, 5, 5)), flat);
    let out = dmi.next(&hlc(7, 5, 6));
    assert_eq!(out.di_plus_opt.map(num), Some(Decimal::new(100, 0)));
    assert_eq!(out.di_minus_opt.map(num), Some(Decimal::new(0, 0)));
    assert_eq!(out.adx_opt.map(num), Some(Decimal::new(100, 0)));
}

#[test]
fn dmi_zero_atr_is_replaced_by_one() {
    let mut dmi = DirectionalMovementIndex::new(1).unwrap();
    dmi.next(&hlc(5, 5, 5));
    dmi.next(&hlc(5, 5, 5));
    let mut plus = RollingMovingAverage::new(1).unwrap();
    let mut minus = RollingMovingAverage::new(1).unwrap();
    let mut adx = RollingMovingAverage::new(1).unwrap();
    let out = get_adx_indicator(
        &hlc(12, 8, 10),
        Some(dec(0, 3)),
        &dec(8, 0),
        &dec(10, 0),
        &mut plus,
        &mut minus,
        &mut adx,
        false,
    );
    assert_eq!(out.di_plus_opt.map(num), Some(Decimal::new(200, 0)));
    assert_eq!(out.di_minus_opt.map(num), Some(Decimal::new(0, 0)));
    assert_eq!(out.adx_opt.map(num), Some(Decimal::new(100, 0)));
}

#[test]
fn normaliser_is_never_zero() {
    assert_eq!(normaliser(None), dec(1, 0));
    assert_eq!(normaliser(Some(dec(0, 0))), dec(1, 0));
    assert_eq!(normaliser(Some(dec(0, 7))), dec(1, 0));
    assert_eq!(normaliser(Some(dec(325, 2))), dec(325, 2));
    assert_eq!(normaliser(Some(dec(-1, 28))), dec(-1, 28));
}

#[test]
fn dmi_try_next_refuses_overflow_and_keeps_state() {
    let max = Dec::new(79_228_162_514_264_337_593_543_950_335, 0).unwrap();
    let min = Dec::new(-79_228_162_514_264_337_593_543_950_335, 0).unwrap();
    let wide = Bar::new(dec(0, 0), max, min, dec(0, 0), dec(0, 0));
    let mut dmi = DirectionalMovementIndex::new(1).unwrap();
    assert_eq!(dmi.preview(&wide), None);
    assert_eq!(dmi.try_next(&wide), None);
    assert_eq!(dmi.try_next(&hlc(10, 8, 8)), Some(pending()));
    assert_eq!(dmi.try_next(&wide), None);
    let out = dmi.try_next(&hlc(12, 8, 10)).unwrap();
    assert_eq!(out.di_plus_opt.map(num), Some(Decimal::new(50, 0)));
    assert_eq!(out.di_minus_opt.map(num), Some(Decimal::new(0, 0)));
    assert_eq!(out.adx_opt.map(num), Some(Decimal::new(100, 0)));
}

#[test]
fn dmi_reset_rearms_the_first_observation() {
    let mut dmi = DirectionalMovementIndex::new(1).unwrap();
    dmi.next(&hlc(10, 8, 8));
    assert_ne!(dmi.next(&hlc(12, 8, 10)), pending());
    dmi.reset();
    assert_eq!(dmi.next(&hlc(20, 8, 10)), pending());
}

#[test]
fn dmi_reset_replays_like_fresh() {
    let bars = [hlc(10, 8, 9), hlc(12, 9, 11), hlc(11, 7, 8), hlc(14, 10, 13), hlc(15, 12, 12)];
    let mut used = DirectionalMovementIndex::new(2).unwrap();
    for b in &bars {
        used.next(b);
    }
    used.reset();
    let mut fresh = DirectionalMovementIndex::new(2).unwrap();
    for b in &bars {
        assert_eq!(used.next(b), fresh.next(b));
    }
}

#[test]
fn dmi_preview_and_try_next_agree_with_next() {
    let bars = [hlc(10, 8, 9), hlc(12, 9, 11), hlc(11, 7, 8), hlc(14, 10, 13), hlc(15, 12, 12)];
    let mut a = DirectionalMovementIndex::new(2).unwrap();
    let mut b = DirectionalMovementIndex::new(2).unwrap();
    for bar in &bars {
        let seen = a.preview(bar);
        assert_eq!(a.try_next(bar), seen);
        assert_eq!(seen, Some(b.next(bar)));
    }
}

#[test]
fn directional_movement_follows_wilders_rule() {
    let zero = dec(0, 0);
    assert_eq!(directional_movement(dec(2, 0), dec(1, 0)), (dec(2, 0), zero));
    assert_eq!(directional_movement(dec(1, 0), dec(2, 0)), (zero, dec(2, 0)));
    assert_eq!(directional_movement(dec(2, 0), dec(2, 0)), (zero, zero));
    assert_eq!(directional_movement(dec(20, 1), dec(2, 0)), (zero, zero));
    assert_eq!(directional_movement(dec(-1, 0), dec(-2, 0)), (zero, zero));
    assert_eq!(directional_movement(dec(2, 0), dec(-3, 0)), (dec(2, 0), zero));
    assert_eq!(directional_movement(dec(-3, 0), dec(5, 1)), (zero, dec(5, 1)));
    assert_eq!(directional_movement(dec(0, 0), dec(-1, 0)), (zero, zero));
}

#[test]
fn get_adx_indicator_uses_one_while_atr_is_pending() {
    let mut plus = RollingMovingAverage::new(1).unwrap();
    let mut minus = RollingMovingAverage::new(1).unwrap();
    let mut adx = RollingMovingAverage::new(1).unwrap();
    let out = get_adx_indicator(
        &hlc(12, 8, 10),
        None,
        &dec(8, 0),
        &dec(10, 0),
        &mut plus,
        &mut minus,
        &mut adx,
        false,
    );
    assert_eq!(out.di_plus_opt.map(num), Some(Decimal::new(200, 0)));
    assert_eq!(out.di_minus_opt.map(num), Some(Decimal::new(0, 0)));
    assert_eq!(out.adx_opt.map(num), Some(Decimal::new(100, 0)));
}

#[test]
fn get_adx_indicator_first_observation_feeds_nothing() {
    let mut plus = RollingMovingAverage::new(1).unwrap();
    let mut minus = RollingMovingAverage::new(1).unwrap();
    let mut adx = RollingMovingAverage::new(1).unwrap();
    let bar = hlc(12, 8, 10);
    let seen = preview_adx_indicator(&bar, None, &dec(8, 0), &dec(10, 0), &plus, &minus, &adx, true);
    assert_eq!(seen, Some(pending()));
    let out =
        get_adx_indicator(&bar, None, &dec(8, 0), &dec(10, 0), &mut plus, &mut minus, &mut adx, true);
    assert_eq!(out, pending());
    assert_eq!(plus.next(dec(3, 0)), Some(dec(3, 0)));
}

#[test]
fn dmi_default_and_label() {
    let dmi = DirectionalMovementIndex::default();
    assert_eq!(dmi.period(), 14);
    assert_eq!(dmi.label(), "RMA(14)");
}

#[test]
fn moves_are_taken_against_the_previous_bar() {
    let got = moves(&hlc(12, 9, 11), &dec(10, 0), &dec(8, 0)).unwrap();
    assert_eq!((num(got.0), num(got.1)), (Decimal::new(2, 0), Decimal::new(-1, 0)));
    let got = moves(&hlc(11, 7, 8), &dec(12, 0), &dec(9, 0)).unwrap();
    assert_eq!((num(got.0), num(got.1)), (Decimal::new(-1, 0), Decimal::new(2, 0)));
}

#[test]
fn directional_indicator_is_a_percentage_of_the_range() {
    assert_eq!(directional_indicator(None, dec(4, 0)), Some(None));
    assert_eq!(
        directional_indicator(Some(dec(1, 0)), dec(4, 0)).map(|v| v.map(num)),
        Some(Some(Decimal::new(25, 0)))
    );
    assert_eq!(
        directional_indicator(Some(dec(3, 0)), dec(1, 0)).map(|v| v.map(num)),
        Some(Some(Decimal::new(300, 0)))
    );
    assert_eq!(directional_indicator(Some(dec(3, 0)), dec(0, 0)), None);
    assert_eq!(directional_indicator(Some(dec(0, 0)), dec(0, 2)), None);
}

#[test]
fn directional_index_is_the_relative_spread() {
    assert_eq!(directional_index(None, Some(dec(1, 0))), Some(None));
    assert_eq!(directional_index(Some(dec(1, 0)), None), Some(None));
    assert_eq!(directional_index(None, None), Some(None));
    assert_eq!(directional_index(Some(dec(0, 0)), Some(dec(0, 0))), Some(None));
    assert_eq!(directional_index(Some(dec(5, 0)), Some(dec(-5, 0))), Some(None));
    assert_eq!(
        directional_index(Some(dec(30, 0)), Some(dec(10, 0))).map(|v| v.map(num)),
        Some(Some(Decimal::new(5, 1)))
    );
    assert_eq!(
        directional_index(Some(dec(10, 0)), Some(dec(30, 0))).map(|v| v.map(num)),
        Some(Some(Decimal::new(5, 1)))
    );
}

#[test]
fn percent_multiplies_by_one_hundred() {
    assert_eq!(percent(None), Some(None));
    assert_eq!(percent(Some(dec(25, 2))).map(|v| v.map(num)), Some(Some(Decimal::new(25, 0))));
    assert_eq!(percent(Some(dec(0, 5))), Some(Some(dec(0, 0))));
    let max = Dec::new(79_228_162_514_264_337_593_543_950_335, 0).unwrap();
    assert_eq!(percent(Some(max)), None);
}
