//! Decode and price-derivation engine for a blockchain account/transaction
//! feed: classifies launch-pad instructions, decodes transaction updates into
//! structured records, derives a venue price from each tracked pool account,
//! and compares the two venues' last prices for arbitrage.
//!
//! Prices are carried as unsigned integers in micro quote units per whole
//! base unit (10^-6 resolution), so every derivation is exact.

pub mod b58;
pub mod classify;
pub mod engine;
pub mod errors;
pub mod meteora;
pub mod monitor;
pub mod num;
pub mod orca;
pub mod scan;
pub mod tx;
