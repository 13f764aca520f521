use vstd::prelude::*;
use crate::b58::{base58_encode, base58_of};
use crate::errors::DecodeError;
use crate::meteora::{
    is_candidate, lemma_chosen_offset_unique, lemma_plausible_price_positive, reserve_x_at,
    reserve_y_at, spec_chosen_offset, spec_meteora_price_micro, MeteoraLBPool,
};
use crate::monitor::{
    log_arbitrage_opportunity, spec_comparison, spec_record, ArbitrageMonitor, ArbitrageSignal,
    Venue,
};
use crate::num::le_bytes_val;
use crate::orca::{decode_orca_price, spec_orca_price_micro};
use crate::tx::{decode_transaction, spec_decoded_transaction, ParsedTransaction, TransactionUpdateInput};

verus! {

/// The update envelope the feed delivers, reduced to plain values.
pub enum UpdateEnvelope {
    /// An account update: the account's public key as 32 raw bytes, its data
    /// buffer, and the slot it was observed at.
    Account { pubkey: Vec<u8>, data: Vec<u8>, slot: u64 },
    /// A transaction update.
    Transaction { update: TransactionUpdateInput },
    /// A keepalive.
    Ping,
    /// Any other update kind.
    Other,
}

/// What handling one update produced.
#[derive(Debug, PartialEq, Eq)]
pub enum HandleOutcome {
    /// A ping, an unrecognized update kind, or an account that is neither
    /// tracked pool.
    Ignored,
    /// A transaction update, decoded to its structured record.
    Transaction { parsed: ParsedTransaction },
    /// A positive price decoded from the tracked Orca pool and published.
    OrcaPrice { price_micro: u128, signal: Option<ArbitrageSignal> },
    /// A positive price decoded from the tracked Meteora pool and published.
    MeteoraPrice {
        reserve_x: u64,
        reserve_y: u64,
        price_micro: u128,
        signal: Option<ArbitrageSignal>,
    },
    /// The tracked pool decoded to a non-positive price; nothing published.
    PriceRejected { venue: Venue },
    /// The tracked pool's bytes yielded no price; nothing published.
    DecodeFailed { venue: Venue, error: DecodeError },
}

/// Base-58 address of the tracked Orca pool account.
pub fn orca_whirlpool_address() -> (s: &'static str)
    ensures
        s@ == "Czfq3xZZDmsdGdUyrNLtRhGc47cXcZtLG4crryfu44zE"@,
{
    "Czfq3xZZDmsdGdUyrNLtRhGc47cXcZtLG4crryfu44zE"
}

/// Base-58 address of the tracked Meteora pool account.
pub fn meteora_pool_address() -> (s: &'static str)
    ensures
        s@ == "BGm1tav58oGcsQJehL9WXBFXF7D27vZsKefj4xJKD5Y"@,
{
    "BGm1tav58oGcsQJehL9WXBFXF7D27vZsKefj4xJKD5Y"
}

/// Base-58 address of the launch-pad program whose transactions are
/// classified.
pub fn raydium_launchpad_program() -> (s: &'static str)
    ensures
        s@ == "LanMV9sAd7wArD4vJFi2qDdfnVhFxYSUg6eADduJ3uj"@,
{
    "LanMV9sAd7wArD4vJFi2qDdfnVhFxYSUg6eADduJ3uj"
}

/// Whether raw key bytes name the tracked Orca pool account.
pub open spec fn spec_is_orca_account(pubkey: Seq<u8>) -> bool {
    base58_of(pubkey) == "Czfq3xZZDmsdGdUyrNLtRhGc47cXcZtLG4crryfu44zE"@
}

/// Whether raw key bytes name the tracked Meteora pool account.
pub open spec fn spec_is_meteora_account(pubkey: Seq<u8>) -> bool {
    base58_of(pubkey) == "BGm1tav58oGcsQJehL9WXBFXF7D27vZsKefj4xJKD5Y"@
}

/// The price an Orca account buffer decodes to, when long enough.
pub open spec fn spec_orca_account_price(data: Seq<u8>) -> u128 {
    spec_orca_price_micro(
        le_bytes_val(data, 65, 16) as u128,
        data.subrange(101, 133),
        data.subrange(181, 213),
    )
}

/// The price of the reserve pair the Meteora heuristic chooses.
pub open spec fn spec_meteora_account_price(data: Seq<u8>) -> u128 {
    spec_meteora_price_micro(
        reserve_x_at(data, spec_chosen_offset(data)) as u64,
        reserve_y_at(data, spec_chosen_offset(data)) as u64,
    )
}

/// Dispatches one update envelope: a transaction update goes to the
/// transaction decoder; an account update for a tracked pool goes to that
/// venue's price decoder, and a positive price replaces the venue's last known
/// price and is compared across venues; everything else is ignored. A decode
/// failure or a non-positive price leaves the monitor untouched: a single bad
/// update never halts processing and never overwrites a published price.
pub fn handle_message(monitor: &mut ArbitrageMonitor, msg: &UpdateEnvelope) -> (r: HandleOutcome)
    ensures
        msg matches UpdateEnvelope::Ping ==> *final(monitor) == *old(monitor) && r
            == HandleOutcome::Ignored,
        msg matches UpdateEnvelope::Other ==> *final(monitor) == *old(monitor) && r
            == HandleOutcome::Ignored,
        msg matches UpdateEnvelope::Transaction { update } ==> *final(monitor) == *old(monitor)
            && (r matches HandleOutcome::Transaction { parsed } && spec_decoded_transaction(
            *update,
            parsed,
        )),
        msg matches UpdateEnvelope::Account { pubkey, data, .. } ==> {
            if spec_is_orca_account(pubkey@) {
                if data@.len() < 653 {
                    &&& *final(monitor) == *old(monitor)
                    &&& r == (HandleOutcome::DecodeFailed {
                        venue: Venue::Orca,
                        error: DecodeError::MalformedBuffer,
                    })
                } else if spec_orca_account_price(data@) == 0 {
                    &&& *final(monitor) == *old(monitor)
                    &&& r == (HandleOutcome::PriceRejected { venue: Venue::Orca })
                } else {
                    &&& *final(monitor) == spec_record(
                        *old(monitor),
                        Venue::Orca,
                        spec_orca_account_price(data@),
                    )
                    &&& r == (HandleOutcome::OrcaPrice {
                        price_micro: spec_orca_account_price(data@),
                        signal: spec_comparison(*final(monitor)),
                    })
                }
            } else if spec_is_meteora_account(pubkey@) {
                if data@.len() < 32 {
                    &&& *final(monitor) == *old(monitor)
                    &&& r == (HandleOutcome::DecodeFailed {
                        venue: Venue::Meteora,
                        error: DecodeError::MalformedBuffer,
                    })
                } else if !(exists|i: int| is_candidate(data@, i)) {
                    &&& *final(monitor) == *old(monitor)
                    &&& r == (HandleOutcome::DecodeFailed {
                        venue: Venue::Meteora,
                        error: DecodeError::ImplausibleValue,
                    })
                } else {
                    &&& *final(monitor) == spec_record(
                        *old(monitor),
                        Venue::Meteora,
                        spec_meteora_account_price(data@),
                    )
                    &&& r == (HandleOutcome::MeteoraPrice {
                        reserve_x: reserve_x_at(data@, spec_chosen_offset(data@)) as u64,
                        reserve_y: reserve_y_at(data@, spec_chosen_offset(data@)) as u64,
                        price_micro: spec_meteora_account_price(data@),
                        signal: spec_comparison(*final(monitor)),
                    })
                }
            } else {
                *final(monitor) == *old(monitor) && r == HandleOutcome::Ignored
            }
        },
{
    match msg {
        UpdateEnvelope::Ping => HandleOutcome::Ignored,
        UpdateEnvelope::Other => HandleOutcome::Ignored,
        UpdateEnvelope::Transaction { update } => {
            let parsed = decode_transaction(update);
            HandleOutcome::Transaction { parsed }
        },
        UpdateEnvelope::Account { pubkey, data, slot: _ } => {
            let key = base58_encode(pubkey.as_slice());
            let orca_addr: String = orca_whirlpool_address().to_owned();
            let meteora_addr: String = meteora_pool_address().to_owned();
            if key == orca_addr {
                match decode_orca_price(data.as_slice()) {
                    Ok(price) => {
                        if price > 0 {
                            monitor.record(Venue::Orca, price);
                            let signal = log_arbitrage_opportunity(monitor);
                            HandleOutcome::OrcaPrice { price_micro: price, signal }
                        } else {
                            HandleOutcome::PriceRejected { venue: Venue::Orca }
                        }
                    },
                    Err(error) => HandleOutcome::DecodeFailed { venue: Venue::Orca, error },
                }
            } else if key == meteora_addr {
                match MeteoraLBPool::from_bytes(data.as_slice()) {
                    Ok(pool) => {
                        proof {
                            let i = choose|i: int|
                                crate::meteora::is_chosen_offset(data@, i) && pool.reserve_x
                                    == reserve_x_at(data@, i) && pool.reserve_y == reserve_y_at(
                                    data@,
                                    i,
                                );
                            lemma_chosen_offset_unique(data@, i, spec_chosen_offset(data@));
                            lemma_plausible_price_positive(pool.reserve_x, pool.reserve_y);
                        }
                        let price = pool.calculate_price();
                        if price > 0 {
                            monitor.record(Venue::Meteora, price);
                            let signal = log_arbitrage_opportunity(monitor);
                            HandleOutcome::MeteoraPrice {
                                reserve_x: pool.reserve_x,
                                reserve_y: pool.reserve_y,
                                price_micro: price,
                                signal,
                            }
                        } else {
                            HandleOutcome::PriceRejected { venue: Venue::Meteora }
                        }
                    },
                    Err(error) => HandleOutcome::DecodeFailed { venue: Venue::Meteora, error },
                }
            } else {
                HandleOutcome::Ignored
            }
        },
    }
}

} // verus!
