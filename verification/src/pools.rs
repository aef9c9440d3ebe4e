use crate::account::AccountKey;
use crate::error::ExtractionError;
use crate::rate::{checked_amount, ExchangeRate, Ratio};
use vstd::prelude::*;

verus! {

/// One registered pool with the exchange rate last read for it.
#[derive(Clone, Copy, Debug, PartialEq, Eq)]
pub struct PoolRate {
    pub pool: AccountKey,
    pub rate: ExchangeRate,
}

/// The pools known to the protocol, each with its current exchange rate.
/// Seen from outside it is a map from a pool's key to its rate.
#[derive(Clone, Debug)]
pub struct PoolRates {
    entries: Vec<PoolRate>,
}

/// The map that a list of entries stands for: a later entry for a pool
/// replaces an earlier one.
spec fn table_of(entries: Seq<PoolRate>) -> Map<AccountKey, Ratio>
    decreases entries.len(),
{
    if entries.len() == 0 {
        Map::empty()
    } else {
        table_of(entries.drop_last()).insert(entries.last().pool, entries.last().rate@)
    }
}

impl View for PoolRates {
    type V = Map<AccountKey, Ratio>;

    closed spec fn view(&self) -> Map<AccountKey, Ratio> {
        table_of(self.entries@)
    }
}

/// What converting `derivative_amount` units of `pool` into base currency
/// gives: `UnknownPool` for a pool that is not registered, `ArithmeticOverflow`
/// when the value exceeds `u64::MAX`, else the value rounded down.
pub open spec fn pool_to_base(
    rates: Map<AccountKey, Ratio>,
    pool: AccountKey,
    derivative_amount: u64,
) -> Result<u64, ExtractionError> {
    if rates.contains_key(pool) {
        checked_amount(rates[pool].to_base(derivative_amount as nat))
    } else {
        Err(ExtractionError::UnknownPool)
    }
}

/// What converting `base_amount` of base currency into units of `pool`
/// gives, with the same errors as [`pool_to_base`].
pub open spec fn pool_to_derivative(
    rates: Map<AccountKey, Ratio>,
    pool: AccountKey,
    base_amount: u64,
) -> Result<u64, ExtractionError> {
    if rates.contains_key(pool) {
        checked_amount(rates[pool].to_derivative(base_amount as nat))
    } else {
        Err(ExtractionError::UnknownPool)
    }
}

/// Every rate in the map can be used for conversion.
pub open spec fn all_rates_valid(rates: Map<AccountKey, Ratio>) -> bool {
    forall|pool: AccountKey| rates.contains_key(pool) ==> (#[trigger] rates[pool]).is_valid()
}

/// No entry after position `from` is for `pool`.
spec fn absent_after(entries: Seq<PoolRate>, pool: AccountKey, from: int) -> bool {
    forall|j: int| from <= j < entries.len() ==> (#[trigger] entries[j]).pool != pool
}

/// A pool that no entry names is not in the map.
proof fn lemma_absent(entries: Seq<PoolRate>, pool: AccountKey)
    requires
        absent_after(entries, pool, 0),
    ensures
        !table_of(entries).contains_key(pool),
    decreases entries.len(),
{
    if entries.len() > 0 {
        lemma_absent(entries.drop_last(), pool);
    }
}

/// The last entry for a pool is the one the map holds.
proof fn lemma_last_entry_wins(entries: Seq<PoolRate>, pool: AccountKey, at: int)
    requires
        0 <= at < entries.len(),
        entries[at].pool == pool,
        absent_after(entries, pool, at + 1),
    ensures
        table_of(entries).contains_key(pool),
        table_of(entries)[pool] == entries[at].rate@,
    decreases entries.len(),
{
    if at < entries.len() - 1 {
        lemma_last_entry_wins(entries.drop_last(), pool, at);
    }
}

/// Replacing the last entry for a pool replaces the pool's rate in the map.
proof fn lemma_replace_entry(entries: Seq<PoolRate>, at: int, entry: PoolRate)
    requires
        0 <= at < entries.len(),
        entries[at].pool == entry.pool,
        absent_after(entries, entry.pool, at + 1),
    ensures
        table_of(entries.update(at, entry)) == table_of(entries).insert(entry.pool, entry.rate@),
    decreases entries.len(),
{
    let updated = entries.update(at, entry);
    if at == entries.len() - 1 {
        assert(updated.drop_last() =~= entries.drop_last());
    } else {
        assert(updated.drop_last() =~= entries.drop_last().update(at, entry));
        lemma_replace_entry(entries.drop_last(), at, entry);
    }
}

impl PoolRates {
    /// A registry with no pool in it.
    pub fn new() -> (rates: PoolRates)
        ensures
            rates@ == Map::<AccountKey, Ratio>::empty(),
    {
        PoolRates { entries: Vec::new() }
    }

    /// Position of the last entry for `pool`, if there is one.
    fn position(&self, pool: &AccountKey) -> (found: Option<usize>)
        ensures
            match found {
                Some(at) => at < self.entries@.len() && self.entries@[at as int].pool == *pool
                    && absent_after(self.entries@, *pool, at + 1),
                None => absent_after(self.entries@, *pool, 0),
            },
    {
        let mut i: usize = self.entries.len();
        while i > 0
            invariant
                i <= self.entries@.len(),
                absent_after(self.entries@, *pool, i as int),
            decreases i,
        {
            i -= 1;
            if self.entries[i].pool.matches(pool) {
                return Some(i);
            }
        }
        None
    }

    /// Registers `pool` with `rate`, or replaces the rate it was registered
    /// with.
    pub fn set_rate(&mut self, pool: AccountKey, rate: ExchangeRate)
        ensures
            final(self)@ == old(self)@.insert(pool, rate@),
    {
        let entry = PoolRate { pool, rate };
        match self.position(&pool) {
            Some(at) => {
                proof {
                    lemma_replace_entry(self.entries@, at as int, entry);
                }
                self.entries[at] = entry;
            },
            None => {
                assert(self.entries@.push(entry).drop_last() =~= self.entries@);
                self.entries.push(entry);
            },
        }
    }

    /// Whether `pool` is registered.
    pub fn contains(&self, pool: &AccountKey) -> (known: bool)
        ensures
            known == self@.contains_key(*pool),
    {
        self.rate_of(pool).is_some()
    }

    /// The current rate of `pool`, or `None` for a pool that is not
    /// registered.
    pub fn rate_of(&self, pool: &AccountKey) -> (rate: Option<ExchangeRate>)
        ensures
            match rate {
                Some(r) => self@.contains_key(*pool) && r@ == self@[*pool],
                None => !self@.contains_key(*pool),
            },
    {
        match self.position(pool) {
            Some(at) => {
                proof {
                    lemma_last_entry_wins(self.entries@, *pool, at as int);
                }
                Some(self.entries[at].rate)
            },
            None => {
                proof {
                    lemma_absent(self.entries@, *pool);
                }
                None
            },
        }
    }

    /// Converts derivative units of `pool` into base currency at the pool's
    /// current rate, rounding down.
    pub fn to_base_currency(&self, pool: &AccountKey, derivative_amount: u64) -> (base: Result<
        u64,
        ExtractionError,
    >)
        ensures
            base == pool_to_base(self@, *pool, derivative_amount),
    {
        match self.rate_of(pool) {
            Some(rate) => rate.to_base_currency(derivative_amount),
            None => Err(ExtractionError::UnknownPool),
        }
    }

    /// Converts base currency into derivative units of `pool` at the pool's
    /// current rate, rounding down.
    pub fn to_derivative_units(&self, pool: &AccountKey, base_amount: u64) -> (derivative: Result<
        u64,
        ExtractionError,
    >)
        ensures
            derivative == pool_to_derivative(self@, *pool, base_amount),
    {
        match self.rate_of(pool) {
            Some(rate) => rate.to_derivative_units(base_amount),
            None => Err(ExtractionError::UnknownPool),
        }
    }
}

/// Round trip through a registered pool: where `derivative` units have a
/// base value that fits, converting that value back succeeds and gives at
/// most `derivative` units.
pub proof fn lemma_pool_round_trip_never_gains(
    rates: Map<AccountKey, Ratio>,
    pool: AccountKey,
    derivative: u64,
)
    requires
        all_rates_valid(rates),
    ensures
        pool_to_base(rates, pool, derivative) matches Ok(base) ==> (pool_to_derivative(
            rates,
            pool,
            base,
        ) matches Ok(back) && back <= derivative),
{
    if rates.contains_key(pool) {
        crate::rate::lemma_round_trip_never_gains(rates[pool], derivative as nat);
    }
}

} // verus!
