//! Detection of price gaps between two exchange venues, in fixed-point
//! arithmetic: quotes are turned into unit prices, two prices into a margin,
//! and a margin that clears the configured threshold into a record to keep.

pub mod amount;
pub mod decimal;
pub mod detection;
pub mod margin;
pub mod normalizer;
pub mod opportunity;
pub mod quote;
pub mod record;
pub mod units;
