use arb_detector::amount::SignedAmount;
use arb_detector::margin::evaluate;

#[test]
fn gross_is_absolute_difference_either_way() {
    let r = evaluate(1_020_000, "X", 1_000_000, "Y", 0);
    assert_eq!(r.gross_profit, 20_000);
    let r = evaluate(1_000_000, "X", 1_020_000, "Y", 0);
    assert_eq!(r.gross_profit, 20_000);
}

#[test]
fn buys_where_price_is_lower() {
    let r = evaluate(1_020_000, "X", 1_000_000, "Y", 0);
    assert_eq!(r.buy_venue, "Y");
    assert_eq!(r.sell_venue, "X");
    let r = evaluate(999_999, "X", 1_000_000, "Y", 0);
    assert_eq!(r.buy_venue, "X");
    assert_eq!(r.sell_venue, "Y");
}

#[test]
fn equal_prices_give_zero_and_a_stable_direction() {
    for _ in 0..3 {
        let r = evaluate(1_000_000, "QuickSwap", 1_000_000, "SushiSwap", 7);
        assert_eq!(r.gross_profit, 0);
        assert_eq!(r.buy_venue, "QuickSwap");
        assert_eq!(r.sell_venue, "SushiSwap");
        assert_eq!(r.net_profit, SignedAmount { negative: true, magnitude: 7 });
    }
}

#[test]
fn net_is_gross_less_cost_also_below_zero() {
    let r = evaluate(1_005_000, "A", 1_000_000, "B", 50_000);
    assert_eq!(r.gross_profit, 5_000);
    assert_eq!(r.net_profit, SignedAmount { negative: true, magnitude: 45_000 });
    let r = evaluate(1_005_000, "A", 1_000_000, "B", 5_000);
    assert_eq!(r.net_profit, SignedAmount { negative: false, magnitude: 0 });
    let r = evaluate(1_005_000, "A", 1_000_000, "B", 1_000);
    assert_eq!(r.net_profit, SignedAmount { negative: false, magnitude: 4_000 });
}

#[test]
fn extreme_prices_do_not_overflow() {
    let r = evaluate(u128::MAX, "A", 0, "B", u128::MAX);
    assert_eq!(r.gross_profit, u128::MAX);
    assert_eq!(r.net_profit, SignedAmount { negative: false, magnitude: 0 });
    let r = evaluate(0, "A", 0, "B", u128::MAX);
    assert_eq!(r.net_profit, SignedAmount { negative: true, magnitude: u128::MAX });
}

#[test]
fn signed_amount_difference_and_order() {
    assert_eq!(SignedAmount::difference(5, 3), SignedAmount { negative: false, magnitude: 2 });
    assert_eq!(SignedAmount::difference(3, 5), SignedAmount { negative: true, magnitude: 2 });
    assert_eq!(SignedAmount::difference(4, 4), SignedAmount { negative: false, magnitude: 0 });
    assert_eq!(SignedAmount::from_unsigned(9), SignedAmount { negative: false, magnitude: 9 });
    assert_eq!(SignedAmount::negated(9), SignedAmount { negative: true, magnitude: 9 });
    assert_eq!(SignedAmount::negated(0), SignedAmount { negative: false, magnitude: 0 });
    let minus_two = SignedAmount::negated(2);
    let minus_one = SignedAmount::negated(1);
    let zero = SignedAmount::from_unsigned(0);
    let one = SignedAmount::from_unsigned(1);
    assert!(minus_one.exceeds(&minus_two));
    assert!(!minus_two.exceeds(&minus_one));
    assert!(zero.exceeds(&minus_one));
    assert!(!minus_one.exceeds(&zero));
    assert!(one.exceeds(&zero));
    assert!(!one.exceeds(&one));
    assert!(!zero.exceeds(&SignedAmount { negative: true, magnitude: 0 }));
}
