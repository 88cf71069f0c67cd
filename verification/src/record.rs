//! Opportunities as rows of the store: every amount written out as decimal
//! text, and read back from it.

use vstd::prelude::*;
use vstd::string::*;
use crate::amount::SignedAmount;
use crate::decimal::{is_digit, parse_decimal, parsed, pow10, ConversionFailure};
use crate::opportunity::{Opportunity, OpportunityModel};
use crate::units::{
    decimal_digits, format_units, lemma_decimal_digits, lemma_units_text_parses, units_text,
    MAX_DECIMALS,
};

verus! {

/// One row of the table `opportunities`, without its key: the three text
/// columns as they are, the three numeric columns as decimal text.
#[derive(Debug)]
pub struct StoredRow {
    pub timestamp: String,
    pub buy_dex: String,
    pub sell_dex: String,
    pub amount_in: String,
    pub gross_profit_usd: String,
    pub net_profit_usd: String,
}

/// The mathematical content of a `StoredRow`.
pub struct RowModel {
    pub timestamp: Seq<char>,
    pub buy_dex: Seq<char>,
    pub sell_dex: Seq<char>,
    pub amount_in: Seq<char>,
    pub gross_profit_usd: Seq<char>,
    pub net_profit_usd: Seq<char>,
}

impl View for StoredRow {
    type V = RowModel;

    open spec fn view(&self) -> RowModel {
        RowModel {
            timestamp: self.timestamp@,
            buy_dex: self.buy_dex@,
            sell_dex: self.sell_dex@,
            amount_in: self.amount_in@,
            gross_profit_usd: self.gross_profit_usd@,
            net_profit_usd: self.net_profit_usd@,
        }
    }
}

/// A signed amount written out: a minus sign before what is below zero.
pub open spec fn signed_text(amount: int, decimals: nat) -> Seq<char> {
    if amount < 0 {
        seq!['-'] + units_text((-amount) as nat, decimals)
    } else {
        units_text(amount as nat, decimals)
    }
}

/// What reading signed decimal text gives: the value behind a minus sign
/// counts as negative.
pub open spec fn parsed_signed(s: Seq<char>, decimals: nat) -> Result<int, ConversionFailure> {
    if s.len() > 0 && s[0] == '-' {
        match parsed(s.subrange(1, s.len() as int), decimals) {
            Ok(v) => Ok(-(v as int)),
            Err(e) => Err(e),
        }
    } else {
        match parsed(s, decimals) {
            Ok(v) => Ok(v as int),
            Err(e) => Err(e),
        }
    }
}

/// The row that keeps an opportunity: the input amount at the precision of
/// the input token, the margins at that of the quote token.
pub open spec fn row_of(o: OpportunityModel, input_decimals: nat, output_decimals: nat) -> RowModel {
    RowModel {
        timestamp: o.timestamp,
        buy_dex: o.buy_venue,
        sell_dex: o.sell_venue,
        amount_in: units_text(o.input_amount_configured, input_decimals),
        gross_profit_usd: units_text(o.gross_profit_usd, output_decimals),
        net_profit_usd: signed_text(o.net_profit_usd, output_decimals),
    }
}

/// The opportunity that a row holds, or the first failure among its numeric
/// columns, taken in the order input amount, gross margin, net margin.
pub open spec fn read_row(row: RowModel, input_decimals: nat, output_decimals: nat) -> Result<
    OpportunityModel,
    ConversionFailure,
> {
    match parsed(row.amount_in, input_decimals) {
        Err(e) => Err(e),
        Ok(amount_in) => match parsed(row.gross_profit_usd, output_decimals) {
            Err(e) => Err(e),
            Ok(gross) => match parsed_signed(row.net_profit_usd, output_decimals) {
                Err(e) => Err(e),
                Ok(net) => Ok(
                    OpportunityModel {
                        timestamp: row.timestamp,
                        buy_venue: row.buy_dex,
                        sell_venue: row.sell_dex,
                        input_amount_configured: amount_in as nat,
                        gross_profit_usd: gross as nat,
                        net_profit_usd: net,
                    },
                ),
            },
        },
    }
}

/// Writes an unsigned amount out at `decimals` places.
pub fn format_unsigned(amount: u128, decimals: u32) -> (r: Result<String, ConversionFailure>)
    ensures
        decimals > MAX_DECIMALS ==> r == Err::<String, ConversionFailure>(
            ConversionFailure::UnsupportedPrecision,
        ),
        decimals <= MAX_DECIMALS ==> r is Ok && r->Ok_0@ == units_text(
            amount as nat,
            decimals as nat,
        ),
{
    match format_units(amount, decimals) {
        Ok(text) => Ok(text),
        Err(_) => Err(ConversionFailure::UnsupportedPrecision),
    }
}

/// Writes a signed amount out at `decimals` places.
pub fn format_signed(amount: &SignedAmount, decimals: u32) -> (r: Result<String, ConversionFailure>)
    ensures
        decimals > MAX_DECIMALS ==> r == Err::<String, ConversionFailure>(
            ConversionFailure::UnsupportedPrecision,
        ),
        decimals <= MAX_DECIMALS ==> r is Ok && r->Ok_0@ == signed_text(amount@, decimals as nat),
{
    let digits = format_unsigned(amount.magnitude, decimals)?;
    if amount.negative && amount.magnitude > 0 {
        let mut text = String::from_str("-");
        text.append(digits.as_str());
        proof {
            reveal_strlit("-");
            assert(text@ =~= seq!['-'] + digits@);
        }
        Ok(text)
    } else {
        Ok(digits)
    }
}

/// Reads signed decimal text as a whole number of units of `10^-decimals`.
pub fn parse_signed(text: &str, decimals: u32) -> (r: Result<SignedAmount, ConversionFailure>)
    ensures
        match parsed_signed(text@, decimals as nat) {
            Ok(v) => r is Ok && r->Ok_0@ == v && r->Ok_0.wf(),
            Err(e) => r == Err::<SignedAmount, ConversionFailure>(e),
        },
{
    let n: usize = text.unicode_len();
    if n > 0 && text.get_char(0) == '-' {
        match parse_decimal(text.substring_char(1, n), decimals) {
            Ok(v) => Ok(SignedAmount::negated(v)),
            Err(e) => Err(e),
        }
    } else {
        match parse_decimal(text, decimals) {
            Ok(v) => Ok(SignedAmount::from_unsigned(v)),
            Err(e) => Err(e),
        }
    }
}

impl Opportunity {
    /// The row that keeps this opportunity.
    pub fn to_row(&self, input_decimals: u32, output_decimals: u32) -> (r: Result<
        StoredRow,
        ConversionFailure,
    >)
        ensures
            input_decimals > MAX_DECIMALS || output_decimals > MAX_DECIMALS ==> r == Err::<
                StoredRow,
                ConversionFailure,
            >(ConversionFailure::UnsupportedPrecision),
            input_decimals <= MAX_DECIMALS && output_decimals <= MAX_DECIMALS ==> r is Ok
                && r->Ok_0@ == row_of(self@, input_decimals as nat, output_decimals as nat),
    {
        let amount_in = format_unsigned(self.input_amount_configured, input_decimals)?;
        let gross_profit_usd = format_unsigned(self.gross_profit_usd, output_decimals)?;
        let net_profit_usd = format_signed(&self.net_profit_usd, output_decimals)?;
        Ok(
            StoredRow {
                timestamp: self.timestamp.clone(),
                buy_dex: self.buy_venue.clone(),
                sell_dex: self.sell_venue.clone(),
                amount_in,
                gross_profit_usd,
                net_profit_usd,
            },
        )
    }

    /// The opportunity that a row holds.
    pub fn from_row(row: &StoredRow, input_decimals: u32, output_decimals: u32) -> (r: Result<
        Opportunity,
        ConversionFailure,
    >)
        ensures
            match read_row(row@, input_decimals as nat, output_decimals as nat) {
                Ok(o) => r is Ok && r->Ok_0@ == o && r->Ok_0.net_profit_usd.wf(),
                Err(e) => r == Err::<Opportunity, ConversionFailure>(e),
            },
    {
        let amount_in = match parse_decimal(row.amount_in.as_str(), input_decimals) {
            Ok(v) => v,
            Err(e) => {
                return Err(e);
            },
        };
        let gross = match parse_decimal(row.gross_profit_usd.as_str(), output_decimals) {
            Ok(v) => v,
            Err(e) => {
                return Err(e);
            },
        };
        let net = match parse_signed(row.net_profit_usd.as_str(), output_decimals) {
            Ok(v) => v,
            Err(e) => {
                return Err(e);
            },
        };
        Ok(
            Opportunity {
                timestamp: row.timestamp.clone(),
                buy_venue: row.buy_dex.clone(),
                sell_venue: row.sell_dex.clone(),
                input_amount_configured: amount_in,
                gross_profit_usd: gross,
                net_profit_usd: net,
            },
        )
    }
}

/// A signed amount written out and read back at the same precision is the
/// amount again.
pub proof fn lemma_signed_text_parses(amount: int, decimals: nat)
    requires
        -(u128::MAX as int) <= amount <= u128::MAX as int,
    ensures
        parsed_signed(signed_text(amount, decimals), decimals) == Ok::<int, ConversionFailure>(
            amount,
        ),
{
    let magnitude: nat = if amount < 0 {
        (-amount) as nat
    } else {
        amount as nat
    };
    let digits = units_text(magnitude, decimals);
    lemma_units_text_parses(magnitude, decimals);
    let whole = decimal_digits(magnitude / pow10(decimals));
    lemma_decimal_digits(magnitude / pow10(decimals));
    assert(digits[0] == whole[0]);
    assert(is_digit(digits[0]));
    if amount < 0 {
        let text = signed_text(amount, decimals);
        assert(text[0] == '-');
        assert(text.subrange(1, text.len() as int) =~= digits);
    }
}

/// An opportunity written to a row and read back from it, at the same
/// precisions, comes back with every field as it was.
pub proof fn lemma_row_round_trip(o: Opportunity, input_decimals: nat, output_decimals: nat)
    ensures
        read_row(row_of(o@, input_decimals, output_decimals), input_decimals, output_decimals)
            == Ok::<OpportunityModel, ConversionFailure>(o@),
{
    lemma_units_text_parses(o.input_amount_configured as nat, input_decimals);
    lemma_units_text_parses(o.gross_profit_usd as nat, output_decimals);
    lemma_signed_text_parses(o.net_profit_usd@, output_decimals);
}

} // verus!
