//! One cycle of the detection loop, as decisions: what a pair of venue
//! replies amounts to, and what to do next after each event.

use vstd::prelude::*;
use crate::amount::SignedAmount;
use crate::decimal::ConversionFailure;
use crate::margin::{evaluate, margin_of, MarginModel, MarginResult};
use crate::normalizer::{normalize, normalized};
use crate::opportunity::{clears_threshold, opportunity_of, Opportunity, OpportunityModel};
use crate::quote::{quote_from_reply, quoted_output, RpcError, TokenId, TradeRequest, VenueReply};

verus! {

/// Seconds to rest between two cycles.
pub const CYCLE_INTERVAL_SECS: u64 = 30;

/// Which of the two venues.
#[derive(Clone, Copy, Debug, PartialEq, Eq, Structural)]
pub enum Side {
    First,
    Second,
}

/// The stage at which a cycle was given up, and for which venue.
#[derive(Clone, Copy, Debug, PartialEq, Eq, Structural)]
pub enum CycleError {
    Rpc(Side, RpcError),
    Conversion(Side, ConversionFailure),
}

/// Why a detector could not be set up.
#[derive(Clone, Copy, Debug, PartialEq, Eq, Structural)]
pub enum ConfigError {
    /// The path holds fewer than two tokens.
    PathTooShort,
    /// Both venues bear the same name.
    SameVenue,
}

/// What is fixed for the lifetime of the loop.
#[derive(Debug)]
pub struct Detector {
    pub request: TradeRequest,
    pub input_decimals: u32,
    pub output_decimals: u32,
    pub first_venue: String,
    pub second_venue: String,
    pub simulated_cost: u128,
    pub min_profit_threshold: SignedAmount,
}

/// What one cycle found.
#[derive(Debug)]
pub enum Assessment {
    /// A venue gave no usable price: nothing was compared.
    Skipped(CycleError),
    /// The net margin does not clear the threshold.
    Unprofitable(MarginResult),
    /// The net margin clears the threshold: this is to be recorded.
    Qualified(Opportunity),
}

/// The mathematical content of an `Assessment`.
pub enum AssessmentModel {
    Skipped(CycleError),
    Unprofitable(MarginModel),
    Qualified(OpportunityModel),
}

impl View for Assessment {
    type V = AssessmentModel;

    open spec fn view(&self) -> AssessmentModel {
        match self {
            Assessment::Skipped(e) => AssessmentModel::Skipped(*e),
            Assessment::Unprofitable(m) => AssessmentModel::Unprofitable(m@),
            Assessment::Qualified(o) => AssessmentModel::Qualified(o@),
        }
    }
}

/// Where the loop stands.
#[derive(Debug)]
pub enum Phase {
    /// Waiting for the two venues' replies.
    Sampling,
    /// Waiting for the store to take the opportunity held here.
    Persisting(Opportunity),
    /// Waiting for the interval to pass.
    Resting,
    /// Shut down: nothing more will be done.
    Stopped,
}

/// What happened outside.
#[derive(Debug)]
pub enum Event {
    /// Both venues were asked at `timestamp`.
    Sampled { timestamp: String, first: VenueReply, second: VenueReply },
    /// The store took the opportunity.
    Stored,
    /// The store refused the opportunity.
    StoreFailed,
    /// The interval has passed.
    Woke,
    /// The operator asked the loop to end. It is looked for before the venues
    /// are asked and during the rest, not in the middle of a cycle.
    ShutdownRequested,
}

/// What to tell the operator at the end of a cycle.
#[derive(Debug)]
pub enum Notice {
    NoOpportunity(MarginResult),
    Recorded(Opportunity),
    /// The opportunity was detected but could not be stored.
    Unrecorded(Opportunity),
    Skipped(CycleError),
}

/// What to do next.
#[derive(Debug)]
pub enum Action {
    /// Ask both venues and hand in `Event::Sampled`.
    Sample,
    /// Store the opportunity that the phase holds, and hand in `Event::Stored`
    /// or `Event::StoreFailed`.
    Persist,
    /// Report, rest for `seconds`, and hand in `Event::Woke`.
    Rest { notice: Notice, seconds: u64 },
    /// The event does not belong to the phase: nothing to do.
    Wait,
    /// Leave the loop.
    Stop,
}

impl Detector {
    /// The path is long enough for a trade and the venues are two.
    pub open spec fn wf(&self) -> bool {
        &&& self.request.wf()
        &&& self.first_venue@ != self.second_venue@
    }

    /// The unit price that a venue's reply amounts to.
    pub open spec fn price_of(&self, side: Side, reply: &VenueReply) -> Result<u128, CycleError> {
        match quoted_output(&self.request, reply) {
            Err(e) => Err(CycleError::Rpc(side, e)),
            Ok(output) => match normalized(
                output as nat,
                self.output_decimals as nat,
                self.request.input_amount as nat,
                self.input_decimals as nat,
            ) {
                Err(e) => Err(CycleError::Conversion(side, e)),
                Ok(price) => Ok(price),
            },
        }
    }

    /// The margin between two prices under this detector's venues and cost.
    pub open spec fn margin_between(&self, first_price: u128, second_price: u128) -> MarginModel {
        margin_of(
            first_price as nat,
            self.first_venue@,
            second_price as nat,
            self.second_venue@,
            self.simulated_cost as nat,
        )
    }

    /// What a cycle finds: the first venue's failure before the second's,
    /// and else the margin, as an opportunity where its net part is above
    /// the threshold.
    pub open spec fn assessed(
        &self,
        timestamp: Seq<char>,
        first: &VenueReply,
        second: &VenueReply,
    ) -> AssessmentModel {
        match self.price_of(Side::First, first) {
            Err(e) => AssessmentModel::Skipped(e),
            Ok(first_price) => match self.price_of(Side::Second, second) {
                Err(e) => AssessmentModel::Skipped(e),
                Ok(second_price) => {
                    let margin = self.margin_between(first_price, second_price);
                    if margin.net_profit > self.min_profit_threshold@ {
                        AssessmentModel::Qualified(
                            opportunity_of(timestamp, self.request.input_amount as nat, margin),
                        )
                    } else {
                        AssessmentModel::Unprofitable(margin)
                    }
                },
            },
        }
    }

    /// Sets up a detector, or says what is wrong with the configuration.
    pub fn new(
        request_amount: u128,
        path: Vec<TokenId>,
        input_decimals: u32,
        output_decimals: u32,
        first_venue: String,
        second_venue: String,
        simulated_cost: u128,
        min_profit_threshold: SignedAmount,
    ) -> (r: Result<Detector, ConfigError>)
        ensures
            path@.len() < 2 ==> r == Err::<Detector, ConfigError>(ConfigError::PathTooShort),
            path@.len() >= 2 && first_venue@ == second_venue@ ==> r == Err::<Detector, ConfigError>(
                ConfigError::SameVenue,
            ),
            path@.len() >= 2 && first_venue@ != second_venue@ ==> r == Ok::<Detector, ConfigError>(
                Detector {
                    request: TradeRequest { input_amount: request_amount, path },
                    input_decimals,
                    output_decimals,
                    first_venue,
                    second_venue,
                    simulated_cost,
                    min_profit_threshold,
                },
            ),
            r matches Ok(d) ==> d.wf(),
    {
        let request = match TradeRequest::new(request_amount, path) {
            Some(request) => request,
            None => {
                return Err(ConfigError::PathTooShort);
            },
        };
        if first_venue == second_venue {
            return Err(ConfigError::SameVenue);
        }
        Ok(
            Detector {
                request,
                input_decimals,
                output_decimals,
                first_venue,
                second_venue,
                simulated_cost,
                min_profit_threshold,
            },
        )
    }

    /// The unit price of one venue, from its reply.
    pub fn price(&self, side: Side, reply: &VenueReply) -> (r: Result<u128, CycleError>)
        ensures
            r == self.price_of(side, reply),
    {
        let venue = match side {
            Side::First => self.first_venue.as_str(),
            Side::Second => self.second_venue.as_str(),
        };
        match quote_from_reply(venue, &self.request, reply) {
            Err(e) => Err(CycleError::Rpc(side, e)),
            Ok(quote) => match normalize(
                quote.output_amount,
                self.output_decimals,
                self.request.input_amount,
                self.input_decimals,
            ) {
                Err(e) => Err(CycleError::Conversion(side, e)),
                Ok(price) => Ok(price),
            },
        }
    }

    /// Compares two prices and applies the threshold.
    pub fn judge(&self, timestamp: &str, first_price: u128, second_price: u128) -> (r: Assessment)
        ensures
            r@ == (if self.margin_between(first_price, second_price).net_profit
                > self.min_profit_threshold@ {
                AssessmentModel::Qualified(
                    opportunity_of(
                        timestamp@,
                        self.request.input_amount as nat,
                        self.margin_between(first_price, second_price),
                    ),
                )
            } else {
                AssessmentModel::Unprofitable(self.margin_between(first_price, second_price))
            }),
            self.wf() ==> (r matches Assessment::Qualified(o) ==> o@.admissible(
                self.simulated_cost as nat,
                self.min_profit_threshold@,
            )),
            r matches Assessment::Qualified(o) ==> o.net_profit_usd.wf(),
            r matches Assessment::Unprofitable(m) ==> m.net_profit@ <= self.min_profit_threshold@,
            !(r is Skipped),
    {
        let margin = evaluate(
            first_price,
            self.first_venue.as_str(),
            second_price,
            self.second_venue.as_str(),
            self.simulated_cost,
        );
        if clears_threshold(&margin.net_profit, &self.min_profit_threshold) {
            Assessment::Qualified(
                Opportunity::from_margin(timestamp, self.request.input_amount, margin),
            )
        } else {
            Assessment::Unprofitable(margin)
        }
    }

    /// What the two venues' replies, taken at `timestamp`, amount to.
    pub fn assess(&self, timestamp: &str, first: &VenueReply, second: &VenueReply) -> (r:
        Assessment)
        ensures
            r@ == self.assessed(timestamp@, first, second),
            self.wf() ==> (r matches Assessment::Qualified(o) ==> o@.admissible(
                self.simulated_cost as nat,
                self.min_profit_threshold@,
            )),
            r matches Assessment::Qualified(o) ==> o.net_profit_usd.wf(),
            (first is Failed || second is Failed) ==> r is Skipped,
    {
        let first_price = match self.price(Side::First, first) {
            Ok(price) => price,
            Err(e) => {
                return Assessment::Skipped(e);
            },
        };
        let second_price = match self.price(Side::Second, second) {
            Ok(price) => price,
            Err(e) => {
                return Assessment::Skipped(e);
            },
        };
        self.judge(timestamp, first_price, second_price)
    }

    /// The next phase and what to do, after `event` in `phase`.
    ///
    /// A cycle that was skipped, one that found nothing and one whose
    /// opportunity the store refused all end in a rest, like one that was
    /// recorded: nothing but a request to shut down, taken between two
    /// cycles, ends the loop.
    pub fn step(&self, phase: Phase, event: Event) -> (r: (Phase, Action))
        ensures
            match (phase, event) {
                (Phase::Sampling, Event::Sampled { timestamp, first, second }) => match self.assessed(
                    timestamp@,
                    &first,
                    &second,
                ) {
                    AssessmentModel::Skipped(e) => r.0 is Resting && r.1 == (Action::Rest {
                        notice: Notice::Skipped(e),
                        seconds: CYCLE_INTERVAL_SECS,
                    }),
                    AssessmentModel::Unprofitable(m) => r.0 is Resting && (r.1 matches Action::Rest {
                        notice: Notice::NoOpportunity(found),
                        seconds,
                    } && found@ == m && seconds == CYCLE_INTERVAL_SECS),
                    AssessmentModel::Qualified(o) => r.1 is Persist && (r.0 matches Phase::Persisting(
                        held,
                    ) && held@ == o && (self.wf() ==> held@.admissible(
                        self.simulated_cost as nat,
                        self.min_profit_threshold@,
                    ))),
                },
                (Phase::Persisting(held), Event::Stored) => r.0 is Resting && r.1 == (Action::Rest {
                    notice: Notice::Recorded(held),
                    seconds: CYCLE_INTERVAL_SECS,
                }),
                (Phase::Persisting(held), Event::StoreFailed) => r.0 is Resting && r.1 == (
                Action::Rest { notice: Notice::Unrecorded(held), seconds: CYCLE_INTERVAL_SECS }),
                (Phase::Resting, Event::Woke) => r.0 is Sampling && r.1 is Sample,
                (Phase::Sampling, Event::ShutdownRequested) => r.0 is Stopped && r.1 is Stop,
                (Phase::Resting, Event::ShutdownRequested) => r.0 is Stopped && r.1 is Stop,
                (Phase::Stopped, _) => r.0 is Stopped && r.1 is Stop,
                (before, _) => r.0 == before && r.1 is Wait,
            },
            r.0 is Stopped <==> phase is Stopped || (event is ShutdownRequested && (phase is Sampling
                || phase is Resting)),
            r.1 is Persist ==> phase is Sampling && r.0 is Persisting,
    {
        match (phase, event) {
            (Phase::Sampling, Event::Sampled { timestamp, first, second }) => {
                match self.assess(timestamp.as_str(), &first, &second) {
                    Assessment::Skipped(e) => (
                        Phase::Resting,
                        Action::Rest { notice: Notice::Skipped(e), seconds: CYCLE_INTERVAL_SECS },
                    ),
                    Assessment::Unprofitable(found) => (
                        Phase::Resting,
                        Action::Rest {
                            notice: Notice::NoOpportunity(found),
                            seconds: CYCLE_INTERVAL_SECS,
                        },
                    ),
                    Assessment::Qualified(held) => (Phase::Persisting(held), Action::Persist),
                }
            },
            (Phase::Persisting(held), Event::Stored) => (
                Phase::Resting,
                Action::Rest { notice: Notice::Recorded(held), seconds: CYCLE_INTERVAL_SECS },
            ),
            (Phase::Persisting(held), Event::StoreFailed) => (
                Phase::Resting,
                Action::Rest { notice: Notice::Unrecorded(held), seconds: CYCLE_INTERVAL_SECS },
            ),
            (Phase::Resting, Event::Woke) => (Phase::Sampling, Action::Sample),
            (Phase::Sampling, Event::ShutdownRequested) => (Phase::Stopped, Action::Stop),
            (Phase::Resting, Event::ShutdownRequested) => (Phase::Stopped, Action::Stop),
            (Phase::Stopped, _) => (Phase::Stopped, Action::Stop),
            (before, _) => (before, Action::Wait),
        }
    }
}

} // verus!
