use arb_detector::decimal::{checked_scale, parse_decimal, ConversionFailure};
use arb_detector::normalizer::{normalize, unit_price};

const ONE_TOKEN: u128 = 1_000_000_000_000_000_000;

#[test]
fn parses_whole_and_fraction() {
    assert_eq!(parse_decimal("1.005000", 6), Ok(1_005_000));
    assert_eq!(parse_decimal("0.000123", 6), Ok(123));
    assert_eq!(parse_decimal("12.5", 6), Ok(12_500_000));
    assert_eq!(parse_decimal("7.", 3), Ok(7_000));
    assert_eq!(parse_decimal("007.010", 3), Ok(7_010));
}

#[test]
fn cuts_fraction_beyond_precision() {
    assert_eq!(parse_decimal("1.0000019", 6), Ok(1_000_001));
    assert_eq!(parse_decimal("5.0", 0), Ok(5));
    assert_eq!(parse_decimal("5.9", 0), Ok(5));
}

#[test]
fn rejects_malformed_text() {
    for text in ["", "1", ".5", ".", "1..2", "1.2.3", "1.2a", "-1.0", "+1.0", "1,5", "1e5", " 1.0", "1.0 "] {
        assert_eq!(parse_decimal(text, 6), Err(ConversionFailure::Malformed), "{:?}", text);
    }
}

#[test]
fn malformed_comes_before_overflow() {
    let text = "999999999999999999999999999999999999999999.0x";
    assert_eq!(parse_decimal(text, 6), Err(ConversionFailure::Malformed));
}

#[test]
fn reports_overflow_of_128_bits() {
    assert_eq!(
        parse_decimal("340282366920938463463374607431768211455.0", 0),
        Ok(u128::MAX)
    );
    assert_eq!(
        parse_decimal("340282366920938463463374607431768211456.0", 0),
        Err(ConversionFailure::Overflow)
    );
    assert_eq!(
        parse_decimal("34028236692093846346337460743176821145.6", 1),
        Err(ConversionFailure::Overflow)
    );
    assert_eq!(parse_decimal("1.0", 39), Err(ConversionFailure::Overflow));
    assert_eq!(parse_decimal("0.0", 4_000_000_000), Ok(0));
}

#[test]
fn scales_by_powers_of_ten() {
    assert_eq!(checked_scale(7, 0), Some(7));
    assert_eq!(checked_scale(7, 3), Some(7_000));
    assert_eq!(checked_scale(0, 4_000_000_000), Some(0));
    assert_eq!(checked_scale(1, 38), Some(100_000_000_000_000_000_000_000_000_000_000_000_000));
    assert_eq!(checked_scale(1, 39), None);
    assert_eq!(checked_scale(4, 38), None);
}

#[test]
fn unit_price_divides_by_input() {
    assert_eq!(unit_price(1_005_000, ONE_TOKEN, 18), Ok(1_005_000));
    assert_eq!(unit_price(1_005_000, 2 * ONE_TOKEN, 18), Ok(502_500));
    assert_eq!(unit_price(1_000_000, 3 * ONE_TOKEN, 18), Ok(333_333));
    assert_eq!(unit_price(1_000_000, 0, 18), Err(ConversionFailure::ZeroInput));
    assert_eq!(unit_price(u128::MAX, ONE_TOKEN, 18), Err(ConversionFailure::Overflow));
}

#[test]
fn normalizes_raw_output() {
    assert_eq!(normalize(1_005_000, 6, ONE_TOKEN, 18), Ok(1_005_000));
    assert_eq!(normalize(123, 6, ONE_TOKEN, 18), Ok(123));
    assert_eq!(normalize(0, 6, ONE_TOKEN, 18), Ok(0));
    assert_eq!(normalize(5, 0, ONE_TOKEN, 18), Ok(5));
    assert_eq!(normalize(2_010_000, 6, 2 * ONE_TOKEN, 18), Ok(1_005_000));
    assert_eq!(normalize(1_395_633_240_123_456_789, 18, 10, 1), Ok(1_395_633_240_123_456_789));
}

#[test]
fn normalize_reports_each_failure() {
    assert_eq!(normalize(1, 78, ONE_TOKEN, 18), Err(ConversionFailure::UnsupportedPrecision));
    assert_eq!(normalize(1, 77, ONE_TOKEN, 18), Ok(1));
    assert_eq!(normalize(1, 6, 0, 18), Err(ConversionFailure::ZeroInput));
    assert_eq!(normalize(u128::MAX, 6, ONE_TOKEN, 18), Err(ConversionFailure::Overflow));
    assert_eq!(normalize(u128::MAX, 6, 1, 0), Ok(u128::MAX));
}
