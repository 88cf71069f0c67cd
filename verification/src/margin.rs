//! The margin between two venues' unit prices, and which venue to buy on.

use vstd::prelude::*;
use crate::amount::SignedAmount;

verus! {

/// Units of the quote token, in its smallest denomination, paid out for one
/// whole unit of the input token.
pub type UnitPrice = u128;

/// What a comparison of two venues yields: where to buy, where to sell, the
/// gap between the prices and what is left of it after the assumed cost.
#[derive(Debug)]
pub struct MarginResult {
    pub buy_venue: String,
    pub sell_venue: String,
    pub gross_profit: u128,
    pub net_profit: SignedAmount,
}

/// The mathematical content of a `MarginResult`.
pub struct MarginModel {
    pub buy_venue: Seq<char>,
    pub sell_venue: Seq<char>,
    pub gross_profit: nat,
    pub net_profit: int,
}

impl View for MarginResult {
    type V = MarginModel;

    open spec fn view(&self) -> MarginModel {
        MarginModel {
            buy_venue: self.buy_venue@,
            sell_venue: self.sell_venue@,
            gross_profit: self.gross_profit as nat,
            net_profit: self.net_profit@,
        }
    }
}

/// The absolute gap between two prices.
pub open spec fn gross_margin(price_a: nat, price_b: nat) -> nat {
    if price_a > price_b {
        (price_a - price_b) as nat
    } else {
        (price_b - price_a) as nat
    }
}

/// Whether the first venue is the one to buy on: it is unless its price is
/// strictly the higher one, so equal prices buy on the first venue.
pub open spec fn buys_on_first(price_a: nat, price_b: nat) -> bool {
    price_a <= price_b
}

/// The margin of two venues: buy where the price is lower, sell on the other,
/// and charge the assumed cost against the gap.
pub open spec fn margin_of(
    price_a: nat,
    venue_a: Seq<char>,
    price_b: nat,
    venue_b: Seq<char>,
    simulated_cost: nat,
) -> MarginModel {
    MarginModel {
        buy_venue: if buys_on_first(price_a, price_b) { venue_a } else { venue_b },
        sell_venue: if buys_on_first(price_a, price_b) { venue_b } else { venue_a },
        gross_profit: gross_margin(price_a, price_b),
        net_profit: gross_margin(price_a, price_b) - simulated_cost,
    }
}

/// The price quoted by the venue that `margin_of` buys on.
pub open spec fn buy_price(price_a: nat, price_b: nat) -> nat {
    if buys_on_first(price_a, price_b) { price_a } else { price_b }
}

/// The price quoted by the venue that `margin_of` sells on.
pub open spec fn sell_price(price_a: nat, price_b: nat) -> nat {
    if buys_on_first(price_a, price_b) { price_b } else { price_a }
}

/// Compares two venues' prices. No threshold is applied here.
pub fn evaluate(
    price_a: UnitPrice,
    venue_a: &str,
    price_b: UnitPrice,
    venue_b: &str,
    simulated_cost: u128,
) -> (r: MarginResult)
    ensures
        r@ == margin_of(price_a as nat, venue_a@, price_b as nat, venue_b@, simulated_cost as nat),
        r.net_profit.wf(),
        r.gross_profit as int == vstd::math::abs(price_a as int - price_b as int),
        r.net_profit@ == r.gross_profit as int - simulated_cost as int,
        price_a != price_b ==> buy_price(price_a as nat, price_b as nat) < sell_price(
            price_a as nat,
            price_b as nat,
        ),
{
    if price_a > price_b {
        let gross: u128 = price_a - price_b;
        MarginResult {
            buy_venue: venue_b.to_owned(),
            sell_venue: venue_a.to_owned(),
            gross_profit: gross,
            net_profit: SignedAmount::difference(gross, simulated_cost),
        }
    } else {
        let gross: u128 = price_b - price_a;
        MarginResult {
            buy_venue: venue_a.to_owned(),
            sell_venue: venue_b.to_owned(),
            gross_profit: gross,
            net_profit: SignedAmount::difference(gross, simulated_cost),
        }
    }
}

/// Unequal prices give a gap of their absolute difference, and the venue
/// bought on quotes strictly less than the venue sold on.
pub proof fn lemma_unequal_prices_order_the_venues(
    price_a: nat,
    venue_a: Seq<char>,
    price_b: nat,
    venue_b: Seq<char>,
    simulated_cost: nat,
)
    requires
        price_a != price_b,
    ensures
        margin_of(price_a, venue_a, price_b, venue_b, simulated_cost).gross_profit
            == vstd::math::abs(price_a - price_b),
        buy_price(price_a, price_b) < sell_price(price_a, price_b),
        margin_of(price_a, venue_a, price_b, venue_b, simulated_cost).buy_venue == (if price_a
            < price_b {
            venue_a
        } else {
            venue_b
        }),
        margin_of(price_a, venue_a, price_b, venue_b, simulated_cost).sell_venue == (if price_a
            < price_b {
            venue_b
        } else {
            venue_a
        }),
{
}

/// Equal prices give no gap, and always the same direction: buy on the
/// first venue, sell on the second.
pub proof fn lemma_equal_prices_give_zero_margin(
    price: nat,
    venue_a: Seq<char>,
    venue_b: Seq<char>,
    simulated_cost: nat,
)
    ensures
        margin_of(price, venue_a, price, venue_b, simulated_cost).gross_profit == 0,
        margin_of(price, venue_a, price, venue_b, simulated_cost).buy_venue == venue_a,
        margin_of(price, venue_a, price, venue_b, simulated_cost).sell_venue == venue_b,
        margin_of(price, venue_a, price, venue_b, simulated_cost).net_profit == -(simulated_cost as int),
{
}

/// The net margin is the gross margin less the assumed cost, whatever its
/// sign.
pub proof fn lemma_net_is_gross_less_cost(
    price_a: nat,
    venue_a: Seq<char>,
    price_b: nat,
    venue_b: Seq<char>,
    simulated_cost: nat,
)
    ensures
        margin_of(price_a, venue_a, price_b, venue_b, simulated_cost).net_profit == margin_of(
            price_a,
            venue_a,
            price_b,
            venue_b,
            simulated_cost,
        ).gross_profit - simulated_cost,
        simulated_cost > gross_margin(price_a, price_b) ==> margin_of(
            price_a,
            venue_a,
            price_b,
            venue_b,
            simulated_cost,
        ).net_profit < 0,
{
}

} // verus!
