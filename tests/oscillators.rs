use ta::indicators::{
    EfficiencyRatio, FastStochastic, OnBalanceVolume, RateOfChange, RelativeStrengthIndex,
    RelativeStrengthIndexSmma, SlowStochastic,
};
use ta::{Bar, Fixed};

fn fx(v: f64) -> Fixed {
    Fixed::from_raw((v * 1e9).round() as i64)
}

fn f(x: Fixed) -> f64 {
    x.raw as f64 / 1e9
}

fn round(num: f64) -> f64 {
    (num * 1000.0).round() / 1000.00
}

#[test]
fn relative_strength_index_test_new() {
    assert!(RelativeStrengthIndex::new(0).is_err());
    assert!(RelativeStrengthIndex::new(1).is_ok());
}

#[test]
fn relative_strength_index_test_next() {
    let mut rsi = RelativeStrengthIndex::new(3).unwrap();
    assert_eq!(rsi.next(fx(10.0)), fx(50.0));
    assert_eq!(f(rsi.next(fx(10.5))).round(), 86.0);
    assert_eq!(f(rsi.next(fx(10.0))).round(), 35.0);
    assert_eq!(f(rsi.next(fx(9.5))).round(), 16.0);
}

#[test]
fn relative_strength_index_test_reset() {
    let mut rsi = RelativeStrengthIndex::new(3).unwrap();
    assert_eq!(rsi.next(fx(10.0)), fx(50.0));
    assert_eq!(f(rsi.next(fx(10.5))).round(), 86.0);
    rsi.reset();
    assert_eq!(f(rsi.next(fx(10.0))).round(), 50.0);
    assert_eq!(f(rsi.next(fx(10.5))).round(), 86.0);
}

#[test]
fn relative_strength_index_test_default() {
    RelativeStrengthIndex::default();
}

#[test]
fn relative_strength_index_test_display() {
    let rsi = RelativeStrengthIndex::new(16).unwrap();
    assert_eq!(rsi.to_string(), "RSI(16)");
}

#[test]
fn relative_strength_index_flat_after_full_reaction() {
    // with length 1 both averages follow the last move; a flat step zeroes both
    let mut rsi = RelativeStrengthIndex::new(1).unwrap();
    rsi.next(fx(10.0));
    assert_eq!(rsi.next(fx(11.0)), fx(100.0));
    assert_eq!(rsi.next(fx(11.0)), fx(50.0));
}

#[test]
fn relative_strength_index_smma_steps() {
    assert!(RelativeStrengthIndexSmma::new(0).is_err());
    let mut rsi = RelativeStrengthIndexSmma::new(3).unwrap();
    // seeds 0.000000001 and 0.00000001: 100 / 11
    assert_eq!(round(f(rsi.next(fx(10.0)))), 9.091);
    // up average (1e-9 * 2 + 0.5) / 3, down average 2e-8 / 3
    assert_eq!(round(f(rsi.next(fx(10.5)))), 100.0);
    assert_eq!(rsi.to_string(), "RSI(3)");
    rsi.reset();
    assert_eq!(round(f(rsi.next(fx(10.0)))), 9.091);
    assert_eq!(RelativeStrengthIndexSmma::default().length(), 14);
}

#[test]
fn fast_stochastic_test_new() {
    assert!(FastStochastic::new(0).is_err());
    assert!(FastStochastic::new(1).is_ok());
}

#[test]
fn fast_stochastic_test_next_with_f64() {
    let mut stoch = FastStochastic::new(3).unwrap();
    assert_eq!(stoch.next(fx(0.0)), fx(50.0));
    assert_eq!(stoch.next(fx(200.0)), fx(100.0));
    assert_eq!(stoch.next(fx(100.0)), fx(50.0));
    assert_eq!(stoch.next(fx(120.0)), fx(20.0));
    assert_eq!(stoch.next(fx(115.0)), fx(75.0));
}

#[test]
fn fast_stochastic_test_next_with_bars() {
    let test_data = vec![
        (20.0, 20.0, 20.0, 50.0),
        (30.0, 10.0, 25.0, 75.0),
        (40.0, 20.0, 16.0, 20.0),
        (35.0, 15.0, 19.0, 30.0),
        (30.0, 20.0, 25.0, 40.0),
        (35.0, 25.0, 30.0, 75.0),
    ];
    let mut stoch = FastStochastic::new(3).unwrap();
    for (high, low, close, expected) in test_data {
        let input_bar = Bar::new().high(fx(high)).low(fx(low)).close(fx(close));
        assert_eq!(stoch.next_bar(&input_bar), fx(expected));
    }
}

#[test]
fn fast_stochastic_test_reset() {
    let mut indicator = FastStochastic::new(10).unwrap();
    assert_eq!(indicator.next(fx(10.0)), fx(50.0));
    assert_eq!(indicator.next(fx(210.0)), fx(100.0));
    assert_eq!(indicator.next(fx(10.0)), fx(0.0));
    assert_eq!(indicator.next(fx(60.0)), fx(25.0));
    indicator.reset();
    assert_eq!(indicator.next(fx(10.0)), fx(50.0));
    assert_eq!(indicator.next(fx(20.0)), fx(100.0));
    assert_eq!(indicator.next(fx(12.5)), fx(25.0));
}

#[test]
fn fast_stochastic_test_default() {
    FastStochastic::default();
}

#[test]
fn fast_stochastic_test_display() {
    let indicator = FastStochastic::new(21).unwrap();
    assert_eq!(indicator.to_string(), "FAST_STOCH(21)");
    assert_eq!(indicator.length(), 21);
}

#[test]
fn fast_stochastic_first_input_is_fifty() {
    for n in [1u32, 2, 5, 14] {
        for x in [-7.5, 0.0, 3.25, 1000.0] {
            let mut stoch = FastStochastic::new(n).unwrap();
            assert_eq!(stoch.next(fx(x)), fx(50.0));
        }
    }
}

#[test]
fn slow_stochastic_test_new() {
    assert!(SlowStochastic::new(0, 1).is_err());
    assert!(SlowStochastic::new(1, 0).is_err());
    assert!(SlowStochastic::new(1, 1).is_ok());
}

#[test]
fn slow_stochastic_test_next_with_f64() {
    let mut stoch = SlowStochastic::new(3, 2).unwrap();
    assert_eq!(stoch.next(fx(10.0)), fx(50.0));
    assert_eq!(f(stoch.next(fx(50.0))).round(), 83.0);
    assert_eq!(f(stoch.next(fx(50.0))).round(), 94.0);
    assert_eq!(f(stoch.next(fx(30.0))).round(), 31.0);
    assert_eq!(f(stoch.next(fx(55.0))).round(), 77.0);
}

#[test]
fn slow_stochastic_test_next_with_bars() {
    let test_data = vec![
        (30.0, 10.0, 25.0, 75.0),
        (20.0, 20.0, 20.0, 58.0),
        (40.0, 20.0, 16.0, 33.0),
        (35.0, 15.0, 19.0, 22.0),
        (30.0, 20.0, 25.0, 34.0),
        (35.0, 25.0, 30.0, 61.0),
    ];
    let mut stoch = SlowStochastic::new(3, 2).unwrap();
    for (high, low, close, expected) in test_data {
        let input_bar = Bar::new().high(fx(high)).low(fx(low)).close(fx(close));
        assert_eq!(f(stoch.next_bar(&input_bar)).round(), expected);
    }
}

#[test]
fn slow_stochastic_test_reset() {
    let mut stoch = SlowStochastic::new(3, 2).unwrap();
    assert_eq!(stoch.next(fx(10.0)), fx(50.0));
    assert_eq!(f(stoch.next(fx(50.0))).round(), 83.0);
    assert_eq!(f(stoch.next(fx(50.0))).round(), 94.0);
    stoch.reset();
    assert_eq!(stoch.next(fx(10.0)), fx(50.0));
}

#[test]
fn slow_stochastic_test_default() {
    SlowStochastic::default();
}

#[test]
fn slow_stochastic_test_display() {
    let indicator = SlowStochastic::new(10, 2).unwrap();
    assert_eq!(indicator.to_string(), "SLOW_STOCH(10, 2)");
}

#[test]
fn efficiency_ratio_test_new() {
    assert!(EfficiencyRatio::new(0).is_err());
    assert!(EfficiencyRatio::new(1).is_ok());
}

#[test]
fn efficiency_ratio_test_next_f64() {
    let mut er = EfficiencyRatio::new(3).unwrap();
    assert_eq!(round(f(er.next(fx(3.0)))), 1.0);
    assert_eq!(round(f(er.next(fx(5.0)))), 1.0);
    assert_eq!(round(f(er.next(fx(2.0)))), 0.2);
    assert_eq!(round(f(er.next(fx(3.0)))), 0.0);
    assert_eq!(round(f(er.next(fx(1.0)))), 0.667);
    assert_eq!(round(f(er.next(fx(3.0)))), 0.2);
    assert_eq!(round(f(er.next(fx(4.0)))), 0.2);
    assert_eq!(round(f(er.next(fx(6.0)))), 1.0);
    er.reset();
    assert_eq!(round(f(er.next(fx(3.0)))), 1.0);
    assert_eq!(round(f(er.next(fx(5.0)))), 1.0);
    assert_eq!(round(f(er.next(fx(2.0)))), 0.2);
    assert_eq!(round(f(er.next(fx(3.0)))), 0.0);
}

#[test]
fn efficiency_ratio_test_display() {
    let er = EfficiencyRatio::new(17).unwrap();
    assert_eq!(er.to_string(), "ER(17)");
}

#[test]
fn efficiency_ratio_flat_prices_give_zero() {
    let mut er = EfficiencyRatio::new(5).unwrap();
    er.next(fx(4.0));
    er.next(fx(4.0));
    assert_eq!(er.next(fx(4.0)), fx(0.0));
    assert_eq!(EfficiencyRatio::default().to_string(), "ER(14)");
}

#[test]
fn rate_of_change_test_new() {
    assert!(RateOfChange::new(0).is_err());
    assert!(RateOfChange::new(1).is_ok());
    assert!(RateOfChange::new(100_000).is_ok());
}

#[test]
fn rate_of_change_test_next_f64() {
    let mut roc = RateOfChange::new(3).unwrap();
    assert_eq!(round(f(roc.next(fx(10.0)))), 0.0);
    assert_eq!(round(f(roc.next(fx(10.4)))), 4.0);
    assert_eq!(round(f(roc.next(fx(10.57)))), 5.7);
    assert_eq!(round(f(roc.next(fx(10.8)))), 8.0);
    assert_eq!(round(f(roc.next(fx(10.9)))), 4.808);
    assert_eq!(round(f(roc.next(fx(10.0)))), -5.393);
}

#[test]
fn rate_of_change_test_next_bar() {
    fn bar(close: f64) -> Bar {
        Bar::new().close(fx(close))
    }
    let mut roc = RateOfChange::new(3).unwrap();
    assert_eq!(round(f(roc.next_bar(&bar(10.0)))), 0.0);
    assert_eq!(round(f(roc.next_bar(&bar(10.4)))), 4.0);
    assert_eq!(round(f(roc.next_bar(&bar(10.57)))), 5.7);
}

#[test]
fn rate_of_change_test_reset() {
    let mut roc = RateOfChange::new(3).unwrap();
    roc.next(fx(12.3));
    roc.next(fx(15.0));
    roc.reset();
    assert_eq!(round(f(roc.next(fx(10.0)))), 0.0);
    assert_eq!(round(f(roc.next(fx(10.4)))), 4.0);
    assert_eq!(round(f(roc.next(fx(10.57)))), 5.7);
}

#[test]
fn rate_of_change_zero_anchor_gives_zero() {
    let mut roc = RateOfChange::new(2).unwrap();
    roc.next(fx(0.0));
    assert_eq!(roc.next(fx(5.0)), fx(0.0));
    assert_eq!(RateOfChange::default().to_string(), "ROC(9)");
}

#[test]
fn on_balance_volume_test_next_bar() {
    let mut obv = OnBalanceVolume::new();
    let bar1 = Bar::new().close(fx(1.5)).volume(fx(1000.0));
    let bar2 = Bar::new().close(fx(5.0)).volume(fx(5000.0));
    let bar3 = Bar::new().close(fx(4.0)).volume(fx(9000.0));
    let bar4 = Bar::new().close(fx(4.0)).volume(fx(4000.0));
    assert_eq!(obv.next_bar(&bar1), fx(1000.0));
    assert_eq!(obv.next_bar(&bar2), fx(6000.0));
    assert_eq!(obv.next_bar(&bar3), fx(-3000.0));
    assert_eq!(obv.next_bar(&bar4), fx(-3000.0));
}

#[test]
fn on_balance_volume_test_reset() {
    let mut obv = OnBalanceVolume::new();
    let bar1 = Bar::new().close(fx(1.5)).volume(fx(1000.0));
    let bar2 = Bar::new().close(fx(4.0)).volume(fx(2000.0));
    let bar3 = Bar::new().close(fx(8.0)).volume(fx(3000.0));
    assert_eq!(obv.next_bar(&bar1), fx(1000.0));
    assert_eq!(obv.next_bar(&bar2), fx(3000.0));
    assert_eq!(obv.next_bar(&bar3), fx(6000.0));
    obv.reset();
    assert_eq!(obv.next_bar(&bar1), fx(1000.0));
    assert_eq!(obv.next_bar(&bar2), fx(3000.0));
    assert_eq!(obv.next_bar(&bar3), fx(6000.0));
}

#[test]
fn on_balance_volume_test_default() {
    OnBalanceVolume::default();
}

#[test]
fn on_balance_volume_test_display() {
    let obv = OnBalanceVolume::new();
    assert_eq!(obv.to_string(), "OBV");
}

#[test]
fn on_balance_volume_first_bar_at_or_below_zero() {
    let mut obv = OnBalanceVolume::new();
    let bar = Bar::new().close(fx(0.0)).volume(fx(10.0));
    assert_eq!(obv.next_bar(&bar), fx(0.0));
}

#[test]
fn relative_strength_index_stays_in_range() {
    let xs = [10.0, 12.0, 9.0, 9.0, 15.5, 3.0, 3.0, 20.0, 0.0, 7.25];
    let mut rsi = RelativeStrengthIndex::new(2).unwrap();
    let mut smma = RelativeStrengthIndexSmma::new(2).unwrap();
    for x in xs {
        let a = rsi.next(fx(x));
        let b = smma.next(fx(x));
        assert!(a.raw >= 0 && a.raw <= 100_000_000_000);
        assert!(b.raw >= 0 && b.raw <= 100_000_000_000);
    }
}
