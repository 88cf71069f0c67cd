use arb_detector::amount::SignedAmount;
use arb_detector::decimal::ConversionFailure;
use arb_detector::opportunity::Opportunity;
use arb_detector::record::{format_signed, format_unsigned, parse_signed, StoredRow};

const ONE_TOKEN: u128 = 1_000_000_000_000_000_000;

fn sample(net: SignedAmount) -> Opportunity {
    Opportunity {
        timestamp: String::from("2024-01-01T00:00:00+00:00"),
        buy_venue: String::from("Y"),
        sell_venue: String::from("X"),
        input_amount_configured: ONE_TOKEN,
        gross_profit_usd: 20_000,
        net_profit_usd: net,
    }
}

#[test]
fn amounts_are_written_as_decimal_text() {
    assert_eq!(format_unsigned(1_005_000, 6).unwrap(), "1.005000");
    assert_eq!(format_unsigned(123, 6).unwrap(), "0.000123");
    assert_eq!(format_unsigned(0, 6).unwrap(), "0.000000");
    assert_eq!(format_unsigned(42, 0).unwrap(), "42.0");
    assert_eq!(format_unsigned(1_395_633_240_123_456_789, 18).unwrap(), "1.395633240123456789");
    assert_eq!(format_unsigned(1, 78), Err(ConversionFailure::UnsupportedPrecision));
    assert_eq!(format_signed(&SignedAmount::negated(45_000), 6).unwrap(), "-0.045000");
    assert_eq!(format_signed(&SignedAmount::from_unsigned(10_000), 6).unwrap(), "0.010000");
    assert_eq!(format_signed(&SignedAmount { negative: true, magnitude: 0 }, 6).unwrap(), "0.000000");
    assert_eq!(
        format_signed(&SignedAmount::negated(1), 78),
        Err(ConversionFailure::UnsupportedPrecision)
    );
}

#[test]
fn signed_text_is_read_back() {
    assert_eq!(parse_signed("-0.045000", 6), Ok(SignedAmount::negated(45_000)));
    assert_eq!(parse_signed("0.010000", 6), Ok(SignedAmount::from_unsigned(10_000)));
    assert_eq!(parse_signed("-0.0", 6), Ok(SignedAmount::from_unsigned(0)));
    assert_eq!(parse_signed("-", 6), Err(ConversionFailure::Malformed));
    assert_eq!(parse_signed("--1.0", 6), Err(ConversionFailure::Malformed));
    assert_eq!(parse_signed("", 6), Err(ConversionFailure::Malformed));
    assert_eq!(
        parse_signed("-340282366920938463463374607431768211456.0", 0),
        Err(ConversionFailure::Overflow)
    );
}

#[test]
fn row_holds_every_field() {
    let row = sample(SignedAmount::from_unsigned(10_000)).to_row(18, 6).unwrap();
    assert_eq!(row.timestamp, "2024-01-01T00:00:00+00:00");
    assert_eq!(row.buy_dex, "Y");
    assert_eq!(row.sell_dex, "X");
    assert_eq!(row.amount_in, "1.000000000000000000");
    assert_eq!(row.gross_profit_usd, "0.020000");
    assert_eq!(row.net_profit_usd, "0.010000");
    assert_eq!(row.amount_in.parse::<f64>().unwrap(), 1.0);
    assert_eq!(row.gross_profit_usd.parse::<f64>().unwrap(), 0.02);
    assert_eq!(row.net_profit_usd.parse::<f64>().unwrap(), 0.01);
}

#[test]
fn row_round_trip_keeps_every_field() {
    for net in [
        SignedAmount::from_unsigned(10_000),
        SignedAmount::negated(45_000),
        SignedAmount::from_unsigned(0),
        SignedAmount::negated(u128::MAX),
        SignedAmount::from_unsigned(u128::MAX),
    ] {
        let before = sample(net);
        let row = before.to_row(18, 6).unwrap();
        let after = Opportunity::from_row(&row, 18, 6).unwrap();
        assert_eq!(after.timestamp, before.timestamp);
        assert_eq!(after.buy_venue, before.buy_venue);
        assert_eq!(after.sell_venue, before.sell_venue);
        assert_eq!(after.input_amount_configured, before.input_amount_configured);
        assert_eq!(after.gross_profit_usd, before.gross_profit_usd);
        assert_eq!(after.net_profit_usd, before.net_profit_usd);
    }
}

#[test]
fn row_reports_precision_and_bad_columns() {
    let o = sample(SignedAmount::from_unsigned(1));
    assert_eq!(o.to_row(78, 6).err(), Some(ConversionFailure::UnsupportedPrecision));
    assert_eq!(o.to_row(18, 78).err(), Some(ConversionFailure::UnsupportedPrecision));
    let row = StoredRow {
        timestamp: String::from("t"),
        buy_dex: String::from("A"),
        sell_dex: String::from("B"),
        amount_in: String::from("1.0"),
        gross_profit_usd: String::from("0.02"),
        net_profit_usd: String::from("-0.01"),
    };
    let o = Opportunity::from_row(&row, 18, 6).unwrap();
    assert_eq!(o.input_amount_configured, ONE_TOKEN);
    assert_eq!(o.gross_profit_usd, 20_000);
    assert_eq!(o.net_profit_usd, SignedAmount::negated(10_000));
    let bad = StoredRow { gross_profit_usd: String::from("x"), ..row };
    assert_eq!(Opportunity::from_row(&bad, 18, 6).err(), Some(ConversionFailure::Malformed));
    let big = StoredRow { amount_in: String::from("1000000000000000000000.0"), ..bad };
    assert_eq!(Opportunity::from_row(&big, 18, 6).err(), Some(ConversionFailure::Overflow));
}
