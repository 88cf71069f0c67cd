//! The record of a margin that cleared the threshold.

use vstd::prelude::*;
use crate::amount::SignedAmount;
use crate::margin::{MarginModel, MarginResult};

verus! {

/// One detected opportunity, as it is kept: when it was seen, where to buy
/// and sell, the configured input amount and the margins.
#[derive(Debug)]
pub struct Opportunity {
    pub timestamp: String,
    pub buy_venue: String,
    pub sell_venue: String,
    pub input_amount_configured: u128,
    pub gross_profit_usd: u128,
    pub net_profit_usd: SignedAmount,
}

/// The mathematical content of an `Opportunity`.
pub struct OpportunityModel {
    pub timestamp: Seq<char>,
    pub buy_venue: Seq<char>,
    pub sell_venue: Seq<char>,
    pub input_amount_configured: nat,
    pub gross_profit_usd: nat,
    pub net_profit_usd: int,
}

impl View for Opportunity {
    type V = OpportunityModel;

    open spec fn view(&self) -> OpportunityModel {
        OpportunityModel {
            timestamp: self.timestamp@,
            buy_venue: self.buy_venue@,
            sell_venue: self.sell_venue@,
            input_amount_configured: self.input_amount_configured as nat,
            gross_profit_usd: self.gross_profit_usd as nat,
            net_profit_usd: self.net_profit_usd@,
        }
    }
}

impl OpportunityModel {
    /// What holds of every record that is kept: the net margin is the gross
    /// margin less the assumed cost, it is above the threshold, and the two
    /// venues differ.
    pub open spec fn admissible(self, simulated_cost: nat, threshold: int) -> bool {
        &&& self.net_profit_usd == self.gross_profit_usd - simulated_cost
        &&& self.net_profit_usd > threshold
        &&& self.buy_venue != self.sell_venue
    }
}

/// The record of `margin`, seen at `timestamp` for a trade of `input_amount`.
pub open spec fn opportunity_of(timestamp: Seq<char>, input_amount: nat, margin: MarginModel) -> OpportunityModel {
    OpportunityModel {
        timestamp,
        buy_venue: margin.buy_venue,
        sell_venue: margin.sell_venue,
        input_amount_configured: input_amount,
        gross_profit_usd: margin.gross_profit,
        net_profit_usd: margin.net_profit,
    }
}

/// Whether a net margin clears the threshold: strictly above it.
pub fn clears_threshold(net_profit: &SignedAmount, threshold: &SignedAmount) -> (r: bool)
    ensures
        r == (net_profit@ > threshold@),
{
    net_profit.exceeds(threshold)
}

impl Opportunity {
    /// Builds the record of a margin.
    pub fn from_margin(timestamp: &str, input_amount: u128, margin: MarginResult) -> (r: Opportunity)
        ensures
            r@ == opportunity_of(timestamp@, input_amount as nat, margin@),
            r.net_profit_usd == margin.net_profit,
    {
        Opportunity {
            timestamp: timestamp.to_owned(),
            buy_venue: margin.buy_venue,
            sell_venue: margin.sell_venue,
            input_amount_configured: input_amount,
            gross_profit_usd: margin.gross_profit,
            net_profit_usd: margin.net_profit,
        }
    }
}

} // verus!
