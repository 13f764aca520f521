use vstd::prelude::*;

verus! {

/// A liquidity venue whose account state encodes a tradable price.
#[derive(Clone, Copy, Debug, PartialEq, Eq, Structural)]
pub enum Venue {
    Orca,
    Meteora,
}

/// Profit, in micro quote units for the reference trade size, above which a
/// price gap is flagged as an opportunity (1 whole quote unit).
pub const PROFIT_THRESHOLD_MICRO: u128 = 1_000_000;

/// Reference trade size for the profit projection, in whole base units.
pub const TRADE_SIZE_BASE_UNITS: u128 = 1;

/// Last known price per venue, in micro quote units per whole base unit.
/// 0 means the venue has not reported a valid price yet; a recorded price is
/// always strictly positive.
#[derive(Clone, Copy, Debug, PartialEq, Eq, Structural)]
pub struct ArbitrageMonitor {
    pub orca_micro: u128,
    pub meteora_micro: u128,
}

/// A cross-venue comparison, emitted once both venues have reported.
#[derive(Clone, Copy, Debug, PartialEq, Eq, Structural)]
pub struct ArbitrageSignal {
    pub orca_micro: u128,
    pub meteora_micro: u128,
    /// Absolute gap between the two last prices.
    pub diff_micro: u128,
    /// Projected profit for the reference trade size.
    pub profit_micro: u128,
    /// Whether the projected profit exceeds the threshold.
    pub opportunity: bool,
}

/// The signal built from two positive last prices. The projected profit is the
/// gap times the reference trade size of one base unit.
pub open spec fn spec_signal(orca: u128, meteora: u128) -> ArbitrageSignal {
    let diff: u128 = if meteora >= orca {
        (meteora - orca) as u128
    } else {
        (orca - meteora) as u128
    };
    ArbitrageSignal {
        orca_micro: orca,
        meteora_micro: meteora,
        diff_micro: diff,
        profit_micro: diff,
        opportunity: diff > PROFIT_THRESHOLD_MICRO,
    }
}

/// What the monitor reports in a given state: a signal exactly when both
/// venues have reported, silence otherwise.
pub open spec fn spec_comparison(m: ArbitrageMonitor) -> Option<ArbitrageSignal> {
    if m.orca_micro > 0 && m.meteora_micro > 0 {
        Some(spec_signal(m.orca_micro, m.meteora_micro))
    } else {
        None
    }
}

/// The monitor state after one venue records a price: that venue's slot is
/// replaced, the other is untouched.
pub open spec fn spec_record(m: ArbitrageMonitor, venue: Venue, price_micro: u128) -> ArbitrageMonitor {
    match venue {
        Venue::Orca => ArbitrageMonitor { orca_micro: price_micro, ..m },
        Venue::Meteora => ArbitrageMonitor { meteora_micro: price_micro, ..m },
    }
}

/// The monitor state after a venue records a whole sequence of prices in order.
pub open spec fn spec_record_all(m: ArbitrageMonitor, venue: Venue, prices: Seq<u128>) -> ArbitrageMonitor
    decreases prices.len(),
{
    if prices.len() == 0 {
        m
    } else {
        spec_record_all(spec_record(m, venue, prices[0]), venue, prices.skip(1))
    }
}

impl ArbitrageMonitor {
    /// A monitor with no price known on either venue.
    pub fn new() -> (m: ArbitrageMonitor)
        ensures
            m.orca_micro == 0,
            m.meteora_micro == 0,
    {
        ArbitrageMonitor { orca_micro: 0, meteora_micro: 0 }
    }

    /// Replaces the venue's last known price. Only strictly positive prices are
    /// ever recorded: an implausible or zero price must never overwrite a slot.
    pub fn record(&mut self, venue: Venue, price_micro: u128)
        requires
            price_micro > 0,
        ensures
            *final(self) == spec_record(*old(self), venue, price_micro),
    {
        match venue {
            Venue::Orca => {
                self.orca_micro = price_micro;
            },
            Venue::Meteora => {
                self.meteora_micro = price_micro;
            },
        }
    }
}

/// Reads both venues' last known prices and, when both are positive, reports
/// the absolute gap, the profit projected for one base unit, and whether that
/// profit exceeds the opportunity threshold. While either venue is still
/// unknown, reports nothing.
pub fn log_arbitrage_opportunity(monitor: &ArbitrageMonitor) -> (s: Option<ArbitrageSignal>)
    ensures
        s == spec_comparison(*monitor),
{
    let orca = monitor.orca_micro;
    let meteora = monitor.meteora_micro;
    if orca > 0 && meteora > 0 {
        let diff = if meteora >= orca {
            meteora - orca
        } else {
            orca - meteora
        };
        let profit = diff * TRADE_SIZE_BASE_UNITS;
        Some(
            ArbitrageSignal {
                orca_micro: orca,
                meteora_micro: meteora,
                diff_micro: diff,
                profit_micro: profit,
                opportunity: profit > PROFIT_THRESHOLD_MICRO,
            },
        )
    } else {
        None
    }
}

/// Law: no arbitrage signal is emitted while only one venue has ever reported.
/// From a fresh monitor, any sequence of recorded samples on a single venue
/// leaves the comparison silent.
pub proof fn lemma_no_signal_while_single_venue(
    m: ArbitrageMonitor,
    venue: Venue,
    prices: Seq<u128>,
)
    requires
        m.orca_micro == 0,
        m.meteora_micro == 0,
    ensures
        spec_comparison(spec_record_all(m, venue, prices)) is None,
    decreases prices.len(),
{
    if prices.len() > 0 {
        let m1 = spec_record(m, venue, prices[0]);
        match venue {
            Venue::Orca => {
                lemma_other_venue_stays_unknown(m1, venue, prices.skip(1));
            },
            Venue::Meteora => {
                lemma_other_venue_stays_unknown(m1, venue, prices.skip(1));
            },
        }
    }
}

/// Recording on one venue never touches the other venue's slot: an unknown
/// venue stays unknown through any run of foreign samples.
pub proof fn lemma_other_venue_stays_unknown(m: ArbitrageMonitor, venue: Venue, prices: Seq<u128>)
    requires
        venue == Venue::Orca ==> m.meteora_micro == 0,
        venue == Venue::Meteora ==> m.orca_micro == 0,
    ensures
        venue == Venue::Orca ==> spec_record_all(m, venue, prices).meteora_micro == 0,
        venue == Venue::Meteora ==> spec_record_all(m, venue, prices).orca_micro == 0,
        spec_comparison(spec_record_all(m, venue, prices)) is None,
    decreases prices.len(),
{
    if prices.len() > 0 {
        lemma_other_venue_stays_unknown(spec_record(m, venue, prices[0]), venue, prices.skip(1));
    }
}

} // verus!
