//! The trade that is priced on every venue, and what a venue answers.

use vstd::prelude::*;

verus! {

/// A token's address.
pub type TokenId = [u8; 20];

/// The fixed trade whose output is asked of every venue: an input amount in
/// the input token's smallest unit, and the tokens to trade through.
#[derive(Debug)]
pub struct TradeRequest {
    pub input_amount: u128,
    pub path: Vec<TokenId>,
}

impl TradeRequest {
    /// A path names at least the token given and the token received.
    pub open spec fn wf(&self) -> bool {
        self.path@.len() >= 2
    }

    /// The request for `input_amount` along `path`, or `None` where the path
    /// holds fewer than two tokens.
    pub fn new(input_amount: u128, path: Vec<TokenId>) -> (r: Option<TradeRequest>)
        ensures
            r is Some <==> path@.len() >= 2,
            r matches Some(t) ==> t.wf() && t.input_amount == input_amount && t.path == path,
    {
        if path.len() >= 2 {
            Some(TradeRequest { input_amount, path })
        } else {
            None
        }
    }
}

/// Why a venue gave no usable quote.
#[derive(Clone, Copy, Debug, PartialEq, Eq, Structural)]
pub enum RpcError {
    /// The call failed or timed out.
    Transport,
    /// The venue did not answer with one amount per token of the path.
    MalformedResponse,
}

/// What came back from one venue's router: the amounts along the path, or
/// nothing.
#[derive(Debug)]
pub enum VenueReply {
    Amounts(Vec<u128>),
    Failed,
}

/// The output that a venue quotes for the trade.
#[derive(Debug)]
pub struct Quote {
    pub venue_id: String,
    pub output_amount: u128,
}

/// The output amount that `reply` holds for `request`: the last amount of an
/// answer that has one amount per token of the path, and at least one.
pub open spec fn quoted_output(request: &TradeRequest, reply: &VenueReply) -> Result<
    u128,
    RpcError,
> {
    match reply {
        VenueReply::Failed => Err(RpcError::Transport),
        VenueReply::Amounts(amounts) => if amounts@.len() == request.path@.len() && amounts@.len()
            > 0 {
            Ok(amounts@[amounts@.len() - 1])
        } else {
            Err(RpcError::MalformedResponse)
        },
    }
}

/// Reads the output amount of the final token out of a venue's reply.
pub fn output_of_reply(request: &TradeRequest, reply: &VenueReply) -> (r: Result<u128, RpcError>)
    ensures
        r == quoted_output(request, reply),
{
    match reply {
        VenueReply::Failed => Err(RpcError::Transport),
        VenueReply::Amounts(amounts) => {
            if amounts.len() == request.path.len() && amounts.len() > 0 {
                Ok(amounts[amounts.len() - 1])
            } else {
                Err(RpcError::MalformedResponse)
            }
        },
    }
}

/// The quote of the venue `venue_id`, read out of its reply.
pub fn quote_from_reply(venue_id: &str, request: &TradeRequest, reply: &VenueReply) -> (r: Result<
    Quote,
    RpcError,
>)
    ensures
        match quoted_output(request, reply) {
            Ok(amount) => r matches Ok(q) && q.venue_id@ == venue_id@ && q.output_amount == amount,
            Err(e) => r == Err::<Quote, RpcError>(e),
        },
{
    match output_of_reply(request, reply) {
        Ok(amount) => Ok(Quote { venue_id: venue_id.to_owned(), output_amount: amount }),
        Err(e) => Err(e),
    }
}

} // verus!
