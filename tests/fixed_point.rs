use ta::label::push_decimal;
use ta::{max3, Bar, Close, DataItem, Error, Fixed, High, Low, Open, Volume};

fn fx(v: f64) -> Fixed {
    Fixed::from_raw((v * 1e9).round() as i64)
}

#[test]
fn test_max3() {
    assert_eq!(max3(fx(3.0), fx(2.0), fx(1.0)), fx(3.0));
    assert_eq!(max3(fx(2.0), fx(3.0), fx(1.0)), fx(3.0));
    assert_eq!(max3(fx(2.0), fx(1.0), fx(3.0)), fx(3.0));
}

#[test]
fn fixed_arithmetic_exact_values() {
    assert_eq!(fx(1.5).add(fx(2.25)), fx(3.75));
    assert_eq!(fx(1.5).sub(fx(2.25)), fx(-0.75));
    assert_eq!(fx(1.5).mul(fx(-2.0)), fx(-3.0));
    assert_eq!(fx(7.0).div(fx(2.0)), fx(3.5));
    assert_eq!(fx(-4.5).abs(), fx(4.5));
    assert_eq!(Fixed::from_u32(100), fx(100.0));
    assert_eq!(Fixed::one(), fx(1.0));
    assert_eq!(Fixed::zero().raw, 0);
}

#[test]
fn fixed_division_rounds_half_away_from_zero() {
    // 2 / 3 = 0.666666666|6... rounds up in the last place
    assert_eq!(fx(2.0).div(fx(3.0)).raw, 666_666_667);
    assert_eq!(fx(-2.0).div(fx(3.0)).raw, -666_666_667);
    assert_eq!(fx(1.0).div(fx(3.0)).raw, 333_333_333);
    // 0.000000001 * 0.5 is exactly half a unit: away from zero
    assert_eq!(Fixed::from_raw(1).mul(fx(0.5)).raw, 1);
    assert_eq!(Fixed::from_raw(-1).mul(fx(0.5)).raw, -1);
}

#[test]
fn fixed_saturates_at_bounds() {
    let big = Fixed::from_raw(i64::MAX);
    assert_eq!(big.add(fx(1.0)).raw, i64::MAX);
    assert_eq!(Fixed::from_raw(i64::MIN).sub(fx(1.0)).raw, i64::MIN);
    assert_eq!(big.mul(fx(2.0)).raw, i64::MAX);
    assert_eq!(Fixed::from_raw(i64::MIN).abs().raw, i64::MAX);
}

#[test]
fn decimal_text() {
    let mut s = String::new();
    push_decimal(&mut s, 0);
    assert_eq!(s, "0");
    let mut s = String::from("x");
    push_decimal(&mut s, 1203);
    assert_eq!(s, "x1203");
}

#[test]
fn test_builder() {
    fn build(open: f64, high: f64, low: f64, close: f64, volume: f64) -> Result<DataItem, Error> {
        DataItem::builder()
            .open(fx(open))
            .high(fx(high))
            .low(fx(low))
            .close(fx(close))
            .volume(fx(volume))
            .build()
    }

    let valid_records = vec![
        (20.0, 25.0, 15.0, 21.0, 7500.0),
        (10.0, 10.0, 10.0, 10.0, 10.0),
        (0.0, 0.0, 0.0, 0.0, 0.0),
    ];
    for (o, h, l, c, v) in valid_records {
        assert!(build(o, h, l, c, v).is_ok());
    }

    let invalid_records = vec![
        (-1.0, 25.0, 15.0, 21.0, 7500.0),
        (20.0, -1.0, 15.0, 21.0, 7500.0),
        (20.0, 25.0, -1.0, 21.0, 7500.0),
        (20.0, 25.0, 15.0, -1.0, 7500.0),
        (20.0, 25.0, 15.0, 21.0, -1.0),
        (14.9, 25.0, 15.0, 21.0, 7500.0),
        (25.1, 25.0, 15.0, 21.0, 7500.0),
        (20.0, 25.0, 15.0, 14.9, 7500.0),
        (20.0, 25.0, 15.0, 25.1, 7500.0),
        (20.0, 15.0, 25.0, 21.0, 7500.0),
    ];
    for (o, h, l, c, v) in invalid_records {
        assert!(build(o, h, l, c, v).is_err());
    }
}

#[test]
fn data_item_errors_and_fields() {
    let incomplete = DataItem::builder().open(fx(1.0)).high(fx(2.0)).low(fx(0.5)).close(fx(1.5)).build();
    assert_eq!(incomplete.err(), Some(Error::DataItemIncomplete));
    let invalid = DataItem::builder()
        .open(fx(3.0))
        .high(fx(2.0))
        .low(fx(0.5))
        .close(fx(1.5))
        .volume(fx(1.0))
        .build();
    assert_eq!(invalid.err(), Some(Error::DataItemInvalid));
    let item = DataItem::builder()
        .open(fx(20.0))
        .high(fx(25.0))
        .low(fx(15.0))
        .close(fx(21.0))
        .volume(fx(7500.0))
        .build()
        .unwrap();
    assert_eq!(item.open(), fx(20.0));
    assert_eq!(item.high(), fx(25.0));
    assert_eq!(item.low(), fx(15.0));
    assert_eq!(item.close(), fx(21.0));
    assert_eq!(item.volume(), fx(7500.0));
    let bar = Bar::new().high(fx(3.0)).close(fx(2.0));
    assert_eq!(High::high(&bar), fx(3.0));
    assert_eq!(Low::low(&bar), fx(0.0));
    assert_eq!(Close::close(&bar), fx(2.0));
}
