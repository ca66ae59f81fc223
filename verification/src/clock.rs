//! Clocks of a market: the last time an action that depends on elapsed time ran.
use vstd::prelude::*;

verus! {

/// `a - b` for `i64`, clamped to the range of `i64`.
pub open spec fn saturating_sub_spec(a: i64, b: i64) -> i64 {
    if a - b > i64::MAX {
        i64::MAX
    } else if a - b < i64::MIN {
        i64::MIN
    } else {
        (a - b) as i64
    }
}

/// `a - b` for `i64`, clamped to the range of `i64`.
pub fn saturating_sub_i64(a: i64, b: i64) -> (r: i64)
    ensures
        r == saturating_sub_spec(a, b),
{
    match a.checked_sub(b) {
        Some(d) => d,
        None => {
            if a > b {
                i64::MAX
            } else {
                i64::MIN
            }
        },
    }
}

/// The seconds elapsed since the clock's time, as the clock reports them: the clamped difference
/// reinterpreted as a `u64` (a clock in the future gives the two's complement of a negative count).
pub open spec fn just_passed_spec(last: i64, current: i64) -> u64 {
    saturating_sub_spec(current, last) as u64
}

/// Returns the seconds elapsed since `*last` at time `current` and moves the clock to `current`
/// when some time has passed.
pub fn just_passed_in_seconds(last: &mut i64, current: i64) -> (r: u64)
    ensures
        r == just_passed_spec(*old(last), current),
        saturating_sub_spec(current, *old(last)) > 0 ==> *final(last) == current,
        saturating_sub_spec(current, *old(last)) <= 0 ==> *final(last) == *old(last),
{
    let duration = saturating_sub_i64(current, *last);
    if duration > 0 {
        *last = current;
    }
    duration as u64
}

/// Reading a clock twice at the same time: the second read reports no time passed.
pub proof fn lemma_clock_idempotent(last: i64, current: i64)
    requires
        saturating_sub_spec(current, last) > 0,
    ensures
        just_passed_spec(current, current) == 0,
{
}

/// Clock kind.
#[derive(Debug, Clone, Copy, PartialEq, Eq, Structural, Hash, PartialOrd, Ord)]
#[non_exhaustive]
pub enum ClockKind {
    /// Price impact distribution clock.
    PriceImpactDistribution,
    /// Borrowing clock.
    Borrowing,
    /// Funding clock.
    Funding,
    /// ADL updated clock for long.
    AdlForLong,
    /// ADL updated clock for short.
    AdlForShort,
}

/// The clocks of a market.
#[derive(Debug, Clone, Copy, PartialEq, Eq, Structural)]
pub struct Clocks {
    /// Price impact distribution clock.
    pub price_impact_distribution: i64,
    /// Borrowing clock.
    pub borrowing: i64,
    /// Funding clock.
    pub funding: i64,
    /// ADL clock for long.
    pub adl_for_long: i64,
    /// ADL clock for short.
    pub adl_for_short: i64,
}

/// The clock of the given kind.
pub open spec fn clock_spec(clocks: Clocks, kind: ClockKind) -> i64 {
    match kind {
        ClockKind::PriceImpactDistribution => clocks.price_impact_distribution,
        ClockKind::Borrowing => clocks.borrowing,
        ClockKind::Funding => clocks.funding,
        ClockKind::AdlForLong => clocks.adl_for_long,
        ClockKind::AdlForShort => clocks.adl_for_short,
    }
}

impl Clocks {
    /// Initialize the price impact distribution, borrowing and funding clocks to the current time.
    pub fn init_to_current(&mut self, current: i64)
        ensures
            final(self).price_impact_distribution == current,
            final(self).borrowing == current,
            final(self).funding == current,
            final(self).adl_for_long == old(self).adl_for_long,
            final(self).adl_for_short == old(self).adl_for_short,
    {
        self.price_impact_distribution = current;
        self.borrowing = current;
        self.funding = current;
    }

    /// Get the clock of the given kind.
    pub fn get(&self, kind: ClockKind) -> (r: Option<i64>)
        ensures
            r == Some(clock_spec(*self, kind)),
    {
        let clock = match kind {
            ClockKind::PriceImpactDistribution => self.price_impact_distribution,
            ClockKind::Borrowing => self.borrowing,
            ClockKind::Funding => self.funding,
            ClockKind::AdlForLong => self.adl_for_long,
            ClockKind::AdlForShort => self.adl_for_short,
        };
        Some(clock)
    }

    /// The seconds elapsed on the clock of the given kind; the clock moves to `current` when time passed.
    pub fn just_passed_in_seconds(&mut self, kind: ClockKind, current: i64) -> (r: u64)
        ensures
            r == just_passed_spec(clock_spec(*old(self), kind), current),
            saturating_sub_spec(current, clock_spec(*old(self), kind)) > 0 ==> clock_spec(*final(self), kind)
                == current,
            saturating_sub_spec(current, clock_spec(*old(self), kind)) <= 0 ==> *final(self) == *old(self),
            forall|k: ClockKind| k != kind ==> clock_spec(*final(self), k) == clock_spec(*old(self), k),
    {
        match kind {
            ClockKind::PriceImpactDistribution => just_passed_in_seconds(
                &mut self.price_impact_distribution,
                current,
            ),
            ClockKind::Borrowing => just_passed_in_seconds(&mut self.borrowing, current),
            ClockKind::Funding => just_passed_in_seconds(&mut self.funding, current),
            ClockKind::AdlForLong => just_passed_in_seconds(&mut self.adl_for_long, current),
            ClockKind::AdlForShort => just_passed_in_seconds(&mut self.adl_for_short, current),
        }
    }
}

} // verus!
