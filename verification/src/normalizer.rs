//! From a venue's raw output amount to a unit price.

use vstd::prelude::*;
use crate::decimal::{checked_scale, parse_decimal, pow10, ConversionFailure};
use crate::margin::UnitPrice;
use crate::units::{format_units, lemma_units_text_parses, MAX_DECIMALS};

verus! {

/// The price of one whole input token, given what the trade's whole input
/// pays out: `output * 10^input_decimals / input_amount`, rounded down.
pub open spec fn unit_price_of(output: nat, input_amount: nat, input_decimals: nat) -> Result<
    UnitPrice,
    ConversionFailure,
> {
    if input_amount == 0 {
        Err(ConversionFailure::ZeroInput)
    } else if output * pow10(input_decimals) > u128::MAX {
        Err(ConversionFailure::Overflow)
    } else {
        Ok(((output * pow10(input_decimals)) / input_amount) as u128)
    }
}

/// The unit price that a raw output amount stands for: none at a precision
/// beyond `MAX_DECIMALS`, else the output divided by the input.
pub open spec fn normalized(
    raw_output: nat,
    output_decimals: nat,
    input_amount: nat,
    input_decimals: nat,
) -> Result<UnitPrice, ConversionFailure> {
    if output_decimals > MAX_DECIMALS {
        Err(ConversionFailure::UnsupportedPrecision)
    } else {
        unit_price_of(raw_output, input_amount, input_decimals)
    }
}

/// Divides an output amount, in the quote token's smallest unit, by the
/// trade's input amount, given in the input token's smallest unit.
pub fn unit_price(output: u128, input_amount: u128, input_decimals: u32) -> (r: Result<
    UnitPrice,
    ConversionFailure,
>)
    ensures
        r == unit_price_of(output as nat, input_amount as nat, input_decimals as nat),
{
    if input_amount == 0 {
        return Err(ConversionFailure::ZeroInput);
    }
    match checked_scale(output, input_decimals) {
        Some(scaled) => Ok(scaled / input_amount),
        None => Err(ConversionFailure::Overflow),
    }
}

/// Turns a venue's raw output amount into a unit price at the precision of
/// the quote token: the amount is written out as a decimal number, read back
/// at that precision, and divided by the input amount.
pub fn normalize(
    raw_output: u128,
    output_decimals: u32,
    input_amount: u128,
    input_decimals: u32,
) -> (r: Result<UnitPrice, ConversionFailure>)
    ensures
        r == normalized(
            raw_output as nat,
            output_decimals as nat,
            input_amount as nat,
            input_decimals as nat,
        ),
{
    let text = match format_units(raw_output, output_decimals) {
        Ok(text) => text,
        Err(_) => {
            return Err(ConversionFailure::UnsupportedPrecision);
        },
    };
    proof {
        lemma_units_text_parses(raw_output as nat, output_decimals as nat);
    }
    match parse_decimal(text.as_str(), output_decimals) {
        Ok(output) => unit_price(output, input_amount, input_decimals),
        Err(e) => Err(e),
    }
}

} // verus!
