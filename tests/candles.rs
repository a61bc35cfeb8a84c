use ta::indicators::{
    CircularQueue, HeikinAshi, HeikinAshiCandle, HeikinAshiColor, Ichimoku, IchimokuOutput,
    KumoColor,
};
use ta::{Bar, Error, Fixed};

fn fx(v: f64) -> Fixed {
    Fixed::from_raw((v * 1e9).round() as i64)
}

fn same_body(c: HeikinAshiCandle, open: f64, close: f64, high: f64, low: f64) -> bool {
    c.open == fx(open) && c.close == fx(close) && c.high == fx(high) && c.low == fx(low)
}

#[test]
fn heikin_ashi_test_next() {
    let mut ha = HeikinAshi::new();
    let ohlc = Bar::new().open(fx(10.0)).close(fx(20.0)).high(fx(20.0)).low(fx(10.0));
    assert!(same_body(ha.next_bar(&ohlc), 20.0, 15.0, 20.0, 10.0));
    let ohlc = Bar::new().open(fx(20.0)).close(fx(15.0)).high(fx(25.0)).low(fx(12.0));
    assert!(same_body(ha.next_bar(&ohlc), 17.5, 18.0, 25.0, 12.0));
    let ohlc = Bar::new().open(fx(15.0)).close(fx(5.0)).high(fx(17.0)).low(fx(5.0));
    assert!(same_body(ha.next_bar(&ohlc), 17.75, 10.5, 17.75, 5.0));
}

#[test]
fn heikin_ashi_test_reset() {
    let mut ha = HeikinAshi::new();
    let ohlc = Bar::new().open(fx(10.0)).close(fx(20.0)).high(fx(20.0)).low(fx(10.0));
    assert!(same_body(ha.next_bar(&ohlc), 20.0, 15.0, 20.0, 10.0));
    ha.reset();
    let ohlc = Bar::new().open(fx(10.0)).close(fx(20.0)).high(fx(20.0)).low(fx(10.0));
    assert!(same_body(ha.next_bar(&ohlc), 20.0, 15.0, 20.0, 10.0));
}

#[test]
fn heikin_ashi_colors() {
    let mut ha = HeikinAshi::new();
    let up = Bar::new().open(fx(10.0)).close(fx(20.0)).high(fx(20.0)).low(fx(10.0));
    // first open is the close, 20, above the synthetic close 15
    assert_eq!(ha.next_bar(&up).color, HeikinAshiColor::Red);
    let c = ha.next_bar(&Bar::new().open(fx(20.0)).close(fx(15.0)).high(fx(25.0)).low(fx(12.0)));
    assert_eq!(c.color, HeikinAshiColor::Green);
    let mut ha = HeikinAshi::new();
    let flat = Bar::new().open(fx(5.0)).close(fx(5.0)).high(fx(5.0)).low(fx(5.0));
    assert_eq!(ha.next_bar(&flat).color, HeikinAshiColor::Red);
}

#[test]
fn heikin_ashi_test_default() {
    HeikinAshi::default();
}

#[test]
fn heikin_ashi_test_display() {
    let ha = HeikinAshi::new();
    assert_eq!(ha.to_string(), "HA()");
}

#[test]
fn test_circular_queue() {
    let mut queue = CircularQueue::new(4, 0);
    queue.set(0, 1);
    queue.set(1, 2);
    queue.set(2, 3);
    queue.set(3, 4);
    assert_eq!(queue.get(0), 1);
    assert_eq!(queue.get(1), 2);
    assert_eq!(queue.get(2), 3);
    assert_eq!(queue.get(3), 4);
    queue.shl();
    assert_eq!(queue.get(0), 2);
    assert_eq!(queue.get(1), 3);
    assert_eq!(queue.get(2), 4);
    assert_eq!(queue.get(3), 0);
    queue.shl();
    assert_eq!(queue.get(0), 3);
    queue.shl();
    assert_eq!(queue.get(0), 4);
    queue.shl();
    assert_eq!(queue.get(0), 0);
}

#[test]
fn ichimoku_rejects_bad_horizons() {
    assert_eq!(Ichimoku::new(0, 4, 8).err(), Some(Error::InvalidParameter));
    assert_eq!(Ichimoku::new(4, 4, 8).err(), Some(Error::InvalidParameter));
    assert_eq!(Ichimoku::new(2, 8, 8).err(), Some(Error::InvalidParameter));
    assert_eq!(Ichimoku::new(2, 9, 8).err(), Some(Error::InvalidParameter));
    assert_eq!(Ichimoku::new(1, 3_000_000_000, 3_000_000_001).err(), Some(Error::InvalidParameter));
    assert!(Ichimoku::new(1, 2, 3).is_ok());
}

#[test]
fn ichimoku_test_reset() {
    let mut ich = Ichimoku::new(2, 4, 8).unwrap();
    let ohlc = Bar::new().open(fx(20.0)).close(fx(20.0)).high(fx(20.0)).low(fx(20.0));
    for _i in 0..8 {
        ich.next(&ohlc);
    }
    ich.reset();
    for i in 0..12 {
        assert_eq!(ich.get(i), IchimokuOutput::default());
    }
}

fn row(close: f64, high: f64, low: f64) -> IchimokuOutput {
    IchimokuOutput { close: Some(fx(close)), high: Some(fx(high)), low: Some(fx(low)), ..Default::default() }
}

fn lines(o: IchimokuOutput, tenkan: f64, kijun: f64) -> IchimokuOutput {
    IchimokuOutput { tenkan_sen: Some(fx(tenkan)), kijun_sen: Some(fx(kijun)), ..o }
}

fn chikou(o: IchimokuOutput, v: f64) -> IchimokuOutput {
    IchimokuOutput { chikou_span: Some(fx(v)), ..o }
}

fn cloud(o: IchimokuOutput, a: f64, b: f64, color: KumoColor) -> IchimokuOutput {
    IchimokuOutput {
        senkou_span_a: Some(fx(a)),
        senkou_span_b: Some(fx(b)),
        kumo_color: Some(color),
        ..o
    }
}

fn blank() -> IchimokuOutput {
    IchimokuOutput::default()
}

#[test]
fn test_ichimoku_advanced() {
    let mut ich = Ichimoku::new(2, 4, 8).unwrap();
    let ohlc = Bar::new().open(fx(20.0)).close(fx(20.0)).high(fx(20.0)).low(fx(20.0));
    for _i in 0..8 {
        ich.next(&ohlc);
    }
    for i in 0..3 {
        assert_eq!(ich.get(i), row(20.0, 20.0, 20.0));
    }
    assert_eq!(ich.get(3), chikou(row(20.0, 20.0, 20.0), 20.0));
    for i in 4..7 {
        assert_eq!(ich.get(i), row(20.0, 20.0, 20.0));
    }
    assert_eq!(ich.get(7), lines(row(20.0, 20.0, 20.0), 20.0, 20.0));
    for i in 8..11 {
        assert_eq!(ich.get(i), blank());
    }
    assert_eq!(ich.get(11), cloud(blank(), 20.0, 20.0, KumoColor::Red));

    let ohlc = Bar::new().open(fx(20.0)).close(fx(30.0)).high(fx(30.0)).low(fx(20.0));
    ich.next(&ohlc);
    for i in 0..2 {
        assert_eq!(ich.get(i), row(20.0, 20.0, 20.0));
    }
    assert_eq!(ich.get(2), chikou(row(20.0, 20.0, 20.0), 20.0));
    assert_eq!(ich.get(3), chikou(row(20.0, 20.0, 20.0), 30.0));
    for i in 4..6 {
        assert_eq!(ich.get(i), row(20.0, 20.0, 20.0));
    }
    assert_eq!(ich.get(6), lines(row(20.0, 20.0, 20.0), 20.0, 20.0));
    assert_eq!(ich.get(7), lines(row(30.0, 30.0, 20.0), 25.0, 25.0));
    for i in 8..10 {
        assert_eq!(ich.get(i), blank());
    }
    assert_eq!(ich.get(10), cloud(blank(), 20.0, 20.0, KumoColor::Red));
    assert_eq!(ich.get(11), cloud(blank(), 25.0, 25.0, KumoColor::Red));

    let ohlc = Bar::new().open(fx(30.0)).close(fx(30.0)).high(fx(30.0)).low(fx(30.0));
    for _i in 0..3 {
        ich.next(&ohlc);
    }
    for i in 0..3 {
        assert_eq!(ich.get(i), chikou(row(20.0, 20.0, 20.0), 30.0));
    }
    assert_eq!(ich.get(3), chikou(lines(row(20.0, 20.0, 20.0), 20.0, 20.0), 30.0));
    assert_eq!(ich.get(4), lines(row(30.0, 30.0, 20.0), 25.0, 25.0));
    assert_eq!(ich.get(5), lines(row(30.0, 30.0, 30.0), 25.0, 25.0));
    assert_eq!(ich.get(6), lines(row(30.0, 30.0, 30.0), 30.0, 25.0));
    assert_eq!(ich.get(7), cloud(lines(row(30.0, 30.0, 30.0), 30.0, 25.0), 20.0, 20.0, KumoColor::Red));
    for i in 8..10 {
        assert_eq!(ich.get(i), cloud(blank(), 25.0, 25.0, KumoColor::Red));
    }
    for i in 10..12 {
        assert_eq!(ich.get(i), cloud(blank(), 27.5, 25.0, KumoColor::Green));
    }

    let ohlc = Bar::new().open(fx(30.0)).close(fx(40.0)).high(fx(45.0)).low(fx(25.0));
    ich.next(&ohlc);
    for i in 0..2 {
        assert_eq!(ich.get(i), chikou(row(20.0, 20.0, 20.0), 30.0));
    }
    assert_eq!(ich.get(2), chikou(lines(row(20.0, 20.0, 20.0), 20.0, 20.0), 30.0));
    assert_eq!(ich.get(3), chikou(lines(row(30.0, 30.0, 20.0), 25.0, 25.0), 40.0));
    assert_eq!(ich.get(4), lines(row(30.0, 30.0, 30.0), 25.0, 25.0));
    assert_eq!(ich.get(5), lines(row(30.0, 30.0, 30.0), 30.0, 25.0));
    assert_eq!(ich.get(6), cloud(lines(row(30.0, 30.0, 30.0), 30.0, 25.0), 20.0, 20.0, KumoColor::Red));
    assert_eq!(ich.get(7), cloud(lines(row(40.0, 45.0, 25.0), 35.0, 35.0), 25.0, 25.0, KumoColor::Red));
    assert_eq!(ich.get(8), cloud(blank(), 25.0, 25.0, KumoColor::Red));
    for i in 9..11 {
        assert_eq!(ich.get(i), cloud(blank(), 27.5, 25.0, KumoColor::Green));
    }
    assert_eq!(ich.get(11), cloud(blank(), 35.0, 32.5, KumoColor::Green));
}
