use ta::indicators::{
    AverageTrueRange, ExponentialMovingAverage, MovingAverageConvergenceDivergence as Macd,
    SmoothedOrModifiedMovingAverage, TrueRange,
};
use ta::{Bar, Fixed};

fn fx(v: f64) -> Fixed {
    Fixed::from_raw((v * 1e9).round() as i64)
}

fn f(x: Fixed) -> f64 {
    x.raw as f64 / 1e9
}

fn round(num: f64) -> f64 {
    (num * 1000.0).round() / 1000.00
}

fn round2(nums: (Fixed, Fixed, Fixed)) -> (f64, f64, f64) {
    let r = |x: Fixed| (f(x) * 100.0).round() / 100.0;
    (r(nums.0), r(nums.1), r(nums.2))
}

#[test]
fn exponential_moving_average_test_new() {
    assert!(ExponentialMovingAverage::new(0).is_err());
    assert!(ExponentialMovingAverage::new(1).is_ok());
}

#[test]
fn exponential_moving_average_test_next() {
    let mut ema = ExponentialMovingAverage::new(3).unwrap();
    assert_eq!(ema.next(fx(2.0)), fx(2.0));
    assert_eq!(ema.next(fx(5.0)), fx(3.5));
    assert_eq!(ema.next(fx(1.0)), fx(2.25));
    assert_eq!(ema.next(fx(6.25)), fx(4.25));

    let mut ema = ExponentialMovingAverage::new(3).unwrap();
    let bar1 = Bar::new().close(fx(2.0));
    let bar2 = Bar::new().close(fx(5.0));
    assert_eq!(ema.next_bar(&bar1), fx(2.0));
    assert_eq!(ema.next_bar(&bar2), fx(3.5));
}

#[test]
fn exponential_moving_average_test_reset() {
    let mut ema = ExponentialMovingAverage::new(5).unwrap();
    assert_eq!(ema.next(fx(4.0)), fx(4.0));
    ema.next(fx(10.0));
    ema.next(fx(15.0));
    ema.next(fx(20.0));
    assert_ne!(ema.next(fx(4.0)), fx(4.0));
    ema.reset();
    assert_eq!(ema.next(fx(4.0)), fx(4.0));
}

#[test]
fn exponential_moving_average_test_display() {
    let ema = ExponentialMovingAverage::new(7).unwrap();
    assert_eq!(ema.to_string(), "EMA(7)");
    assert_eq!(ema.length(), 7);
}

#[test]
fn exponential_moving_average_default_length() {
    assert_eq!(ExponentialMovingAverage::default().to_string(), "EMA(9)");
}

#[test]
fn smoothed_moving_average_steps() {
    assert!(SmoothedOrModifiedMovingAverage::new(0).is_err());
    let mut smma = SmoothedOrModifiedMovingAverage::new(3).unwrap();
    assert_eq!(smma.next(fx(2.0)), fx(2.0));
    // (2 * 2 + 5) / 3
    assert_eq!(smma.next(fx(5.0)), fx(3.0));
    // (3 * 2 + 3) / 3
    assert_eq!(smma.next(fx(3.0)), fx(3.0));
    smma.reset();
    assert_eq!(smma.next(fx(7.0)), fx(7.0));
    assert_eq!(smma.to_string(), "SMMA(3)");
    assert_eq!(SmoothedOrModifiedMovingAverage::default().length(), 9);
}

#[test]
fn true_range_test_next_f64() {
    let mut tr = TrueRange::new();
    assert_eq!(round(f(tr.next(fx(2.5)))), 0.0);
    assert_eq!(round(f(tr.next(fx(3.6)))), 1.1);
    assert_eq!(round(f(tr.next(fx(3.3)))), 0.3);
}

#[test]
fn true_range_test_next_bar() {
    let mut tr = TrueRange::new();
    let bar1 = Bar::new().high(fx(10.0)).low(fx(7.5)).close(fx(9.0));
    let bar2 = Bar::new().high(fx(11.0)).low(fx(9.0)).close(fx(9.5));
    let bar3 = Bar::new().high(fx(9.0)).low(fx(5.0)).close(fx(8.0));
    assert_eq!(tr.next_bar(&bar1), fx(2.5));
    assert_eq!(tr.next_bar(&bar2), fx(2.0));
    assert_eq!(tr.next_bar(&bar3), fx(4.5));
}

#[test]
fn true_range_test_reset() {
    let mut tr = TrueRange::new();
    let bar1 = Bar::new().high(fx(10.0)).low(fx(7.5)).close(fx(9.0));
    let bar2 = Bar::new().high(fx(11.0)).low(fx(9.0)).close(fx(9.5));
    tr.next_bar(&bar1);
    tr.next_bar(&bar2);
    tr.reset();
    let bar3 = Bar::new().high(fx(60.0)).low(fx(15.0)).close(fx(51.0));
    assert_eq!(tr.next_bar(&bar3), fx(45.0));
}

#[test]
fn true_range_test_default() {
    TrueRange::default();
}

#[test]
fn true_range_test_display() {
    let indicator = TrueRange::new();
    assert_eq!(indicator.to_string(), "TRUE_RANGE()");
}

#[test]
fn true_range_value_and_bar_streams_differ() {
    // the value entry point remembers the value, the bar one the close
    let mut tr = TrueRange::new();
    tr.next(fx(10.0));
    let bar = Bar::new().high(fx(12.0)).low(fx(11.0)).close(fx(11.5));
    assert_eq!(tr.next_bar(&bar), fx(2.0));
    assert_eq!(tr.next(fx(11.0)), fx(0.5));
}

#[test]
fn average_true_range_test_new() {
    assert!(AverageTrueRange::new(0).is_err());
    assert!(AverageTrueRange::new(1).is_ok());
}

#[test]
fn average_true_range_test_next() {
    let mut atr = AverageTrueRange::new(3).unwrap();
    let bar1 = Bar::new().high(fx(10.0)).low(fx(7.5)).close(fx(9.0));
    let bar2 = Bar::new().high(fx(11.0)).low(fx(9.0)).close(fx(9.5));
    let bar3 = Bar::new().high(fx(9.0)).low(fx(5.0)).close(fx(8.0));
    assert_eq!(atr.next_bar(&bar1), fx(2.5));
    assert_eq!(atr.next_bar(&bar2), fx(2.25));
    assert_eq!(atr.next_bar(&bar3), fx(3.375));
}

#[test]
fn average_true_range_test_reset() {
    let mut atr = AverageTrueRange::new(9).unwrap();
    let bar1 = Bar::new().high(fx(10.0)).low(fx(7.5)).close(fx(9.0));
    let bar2 = Bar::new().high(fx(11.0)).low(fx(9.0)).close(fx(9.5));
    atr.next_bar(&bar1);
    atr.next_bar(&bar2);
    atr.reset();
    let bar3 = Bar::new().high(fx(60.0)).low(fx(15.0)).close(fx(51.0));
    assert_eq!(atr.next_bar(&bar3), fx(45.0));
}

#[test]
fn average_true_range_test_default() {
    AverageTrueRange::default();
}

#[test]
fn average_true_range_test_display() {
    let indicator = AverageTrueRange::new(8).unwrap();
    assert_eq!(indicator.to_string(), "ATR(8)");
}

#[test]
fn average_true_range_on_values() {
    let mut atr = AverageTrueRange::new(3).unwrap();
    assert_eq!(atr.next(fx(10.0)), fx(0.0));
    assert_eq!(atr.next(fx(12.0)), fx(1.0));
}

#[test]
fn moving_average_convergence_divergence_test_new() {
    assert!(Macd::new(0, 1, 1).is_err());
    assert!(Macd::new(1, 0, 1).is_err());
    assert!(Macd::new(1, 1, 0).is_err());
    assert!(Macd::new(1, 1, 1).is_ok());
}

#[test]
fn test_macd() {
    let mut macd = Macd::new(3, 6, 4).unwrap();
    assert_eq!(round2(macd.next(fx(2.0))), (0.0, 0.0, 0.0));
    assert_eq!(round2(macd.next(fx(3.0))), (0.21, 0.09, 0.13));
    assert_eq!(round2(macd.next(fx(4.2))), (0.52, 0.26, 0.26));
    assert_eq!(round2(macd.next(fx(7.0))), (1.15, 0.62, 0.54));
    assert_eq!(round2(macd.next(fx(6.7))), (1.15, 0.83, 0.32));
    assert_eq!(round2(macd.next(fx(6.5))), (0.94, 0.87, 0.07));
}

#[test]
fn moving_average_convergence_divergence_test_reset() {
    let mut macd = Macd::new(3, 6, 4).unwrap();
    assert_eq!(round2(macd.next(fx(2.0))), (0.0, 0.0, 0.0));
    assert_eq!(round2(macd.next(fx(3.0))), (0.21, 0.09, 0.13));
    macd.reset();
    assert_eq!(round2(macd.next(fx(2.0))), (0.0, 0.0, 0.0));
    assert_eq!(round2(macd.next(fx(3.0))), (0.21, 0.09, 0.13));
}

#[test]
fn moving_average_convergence_divergence_test_default() {
    Macd::default();
}

#[test]
fn moving_average_convergence_divergence_test_display() {
    let indicator = Macd::new(13, 30, 10).unwrap();
    assert_eq!(indicator.to_string(), "MACD(13, 30, 10)");
    assert_eq!(Macd::default().to_string(), "MACD(12, 26, 9)");
}

#[test]
fn reset_reproduces_fresh_outputs() {
    let inputs = [2.0, 3.0, 4.2, 7.0, 6.7, 6.5, 1.0];
    let mut used = Macd::new(3, 6, 4).unwrap();
    for x in [9.0, 1.0, 4.0] {
        used.next(fx(x));
    }
    used.reset();
    let mut fresh = Macd::new(3, 6, 4).unwrap();
    for x in inputs {
        assert_eq!(used.next(fx(x)), fresh.next(fx(x)));
    }
    let mut used = ExponentialMovingAverage::new(4).unwrap();
    used.next(fx(100.0));
    used.reset();
    let mut fresh = ExponentialMovingAverage::new(4).unwrap();
    for x in inputs {
        assert_eq!(used.next(fx(x)), fresh.next(fx(x)));
    }
}

fn replay<I: ta::Next<Fixed, Output = Fixed> + ta::Reset>(ind: &mut I, xs: &[f64]) -> Vec<Fixed> {
    xs.iter().map(|x| ind.next(fx(*x))).collect()
}

#[test]
fn indicators_share_the_update_and_reset_protocol() {
    let xs = [2.0, 5.0, 1.0, 6.25];
    let mut ema = ExponentialMovingAverage::new(3).unwrap();
    assert_eq!(replay(&mut ema, &xs), vec![fx(2.0), fx(3.5), fx(2.25), fx(4.25)]);
    ta::Reset::reset(&mut ema);
    assert_eq!(replay(&mut ema, &xs), vec![fx(2.0), fx(3.5), fx(2.25), fx(4.25)]);
    let mut sma = ta::indicators::SimpleMovingAverage::new(2).unwrap();
    assert_eq!(replay(&mut sma, &xs), vec![fx(2.0), fx(3.5), fx(3.0), fx(3.625)]);
    let mut tr = TrueRange::new();
    let bar = Bar::new().high(fx(3.0)).low(fx(1.0)).close(fx(2.0));
    assert_eq!(ta::Next::next(&mut tr, &bar), fx(2.0));
}
