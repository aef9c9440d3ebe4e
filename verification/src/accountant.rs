use crate::account::AccountKey;
use crate::error::ExtractionError;
use crate::pools::{all_rates_valid, PoolRates};
use crate::rate::{lemma_to_base_monotonic, Ratio};
use vstd::prelude::*;

verus! {

/// A vault: the balance of one pool's derivative token that backs the
/// protocol token, debited only under the authority scoped to it.
#[derive(Clone, Copy, Debug, PartialEq, Eq)]
pub struct Vault {
    pub key: AccountKey,
    pub pool: AccountKey,
    pub authority: AccountKey,
    pub balance: u64,
}

/// Base-currency value of one vault at its pool's current rate.
pub open spec fn vault_value(rates: Map<AccountKey, Ratio>, vault: Vault) -> nat {
    if rates.contains_key(vault.pool) {
        rates[vault.pool].to_base(vault.balance as nat)
    } else {
        0
    }
}

/// Total backing value: the base-currency values of all vaults, summed.
pub open spec fn total_backing_value(rates: Map<AccountKey, Ratio>, vaults: Seq<Vault>) -> nat
    decreases vaults.len(),
{
    if vaults.len() == 0 {
        0
    } else {
        total_backing_value(rates, vaults.drop_last()) + vault_value(rates, vaults.last())
    }
}

/// Every vault belongs to a registered pool.
pub open spec fn all_pools_known(rates: Map<AccountKey, Ratio>, vaults: Seq<Vault>) -> bool {
    forall|i: int| 0 <= i < vaults.len() ==> rates.contains_key((#[trigger] vaults[i]).pool)
}

/// Yield: what the backing is worth beyond the principal owed, and nothing
/// when it is worth less.
pub open spec fn yield_of(total_backing: int, principal: int) -> int {
    if total_backing > principal {
        total_backing - principal
    } else {
        0
    }
}

/// The extractable yield of `vaults` against `protocol_token_supply` units of
/// principal: `UnknownPool` if a vault's pool is not registered, else
/// `ArithmeticOverflow` if the total backing value exceeds `u64::MAX`, else
/// the yield.
pub open spec fn extractable_yield(
    rates: Map<AccountKey, Ratio>,
    vaults: Seq<Vault>,
    protocol_token_supply: u64,
) -> Result<u64, ExtractionError> {
    if !all_pools_known(rates, vaults) {
        Err(ExtractionError::UnknownPool)
    } else if total_backing_value(rates, vaults) > u64::MAX {
        Err(ExtractionError::ArithmeticOverflow)
    } else {
        Ok(yield_of(total_backing_value(rates, vaults) as int, protocol_token_supply as int) as u64)
    }
}

/// Computes how much base currency can be taken out without touching
/// principal. One protocol token stands for one unit of base currency, so
/// the principal is the protocol token's supply. A backing worth less than
/// the principal gives zero, not an error.
pub fn compute_extractable_yield(
    vaults: &Vec<Vault>,
    rates: &PoolRates,
    protocol_token_supply: u64,
) -> (extractable: Result<u64, ExtractionError>)
    ensures
        extractable == extractable_yield(rates@, vaults@, protocol_token_supply),
{
    let mut total: u64 = 0;
    let mut overflowed = false;
    let mut i: usize = 0;
    while i < vaults.len()
        invariant
            i <= vaults@.len(),
            all_pools_known(rates@, vaults@.take(i as int)),
            overflowed <==> total_backing_value(rates@, vaults@.take(i as int)) > u64::MAX,
            !overflowed ==> total == total_backing_value(rates@, vaults@.take(i as int)),
        decreases vaults@.len() - i,
    {
        let vault = vaults[i];
        assert(vaults@.take(i + 1).drop_last() =~= vaults@.take(i as int));
        match rates.to_base_currency(&vault.pool, vault.balance) {
            Ok(value) => {
                if overflowed || value > u64::MAX - total {
                    overflowed = true;
                } else {
                    total = total + value;
                }
            },
            Err(ExtractionError::UnknownPool) => {
                return Err(ExtractionError::UnknownPool);
            },
            Err(_) => {
                overflowed = true;
            },
        }
        i += 1;
    }
    assert(vaults@.take(i as int) =~= vaults@);
    if overflowed {
        Err(ExtractionError::ArithmeticOverflow)
    } else if total > protocol_token_supply {
        Ok(total - protocol_token_supply)
    } else {
        Ok(0)
    }
}

/// The yield is never negative, whatever the backing is worth.
pub proof fn lemma_yield_never_negative(total_backing: int, principal: int)
    ensures
        yield_of(total_backing, principal) >= 0,
{
}

/// Taking the yield out leaves the principal in: what remains of the backing
/// is worth the principal, or all of the backing where it was worth less.
pub proof fn lemma_yield_leaves_principal(total_backing: int, principal: int)
    ensures
        total_backing >= principal ==> total_backing - yield_of(total_backing, principal)
            == principal,
        total_backing <= principal ==> yield_of(total_backing, principal) == 0,
{
}

/// Where the computation succeeds, the yield is at least zero, at most the
/// total backing value, and exactly the backing's excess over the principal.
pub proof fn lemma_extractable_yield_bounds(
    rates: Map<AccountKey, Ratio>,
    vaults: Seq<Vault>,
    protocol_token_supply: u64,
)
    ensures
        extractable_yield(rates, vaults, protocol_token_supply) matches Ok(extractable) ==> 0
            <= extractable <= total_backing_value(rates, vaults) && extractable == yield_of(
            total_backing_value(rates, vaults) as int,
            protocol_token_supply as int,
        ),
{
}

/// `higher` holds the same vaults as `lower`, none with a smaller balance.
pub open spec fn balances_raised(lower: Seq<Vault>, higher: Seq<Vault>) -> bool {
    &&& lower.len() == higher.len()
    &&& forall|i: int|
        0 <= i < lower.len() ==> (#[trigger] lower[i]).pool == higher[i].pool && lower[i].balance
            <= higher[i].balance
}

/// With rates fixed, raising vault balances never lowers the total backing
/// value.
pub proof fn lemma_backing_monotonic(
    rates: Map<AccountKey, Ratio>,
    lower: Seq<Vault>,
    higher: Seq<Vault>,
)
    requires
        all_rates_valid(rates),
        balances_raised(lower, higher),
    ensures
        total_backing_value(rates, lower) <= total_backing_value(rates, higher),
    decreases lower.len(),
{
    if lower.len() > 0 {
        let last: int = lower.len() - 1;
        lemma_backing_monotonic(rates, lower.drop_last(), higher.drop_last());
        if rates.contains_key(lower[last].pool) {
            lemma_to_base_monotonic(
                rates[lower[last].pool],
                lower[last].balance as nat,
                higher[last].balance as nat,
            );
        }
    }
}

/// With rates and supply fixed, raising vault balances never lowers the
/// yield.
pub proof fn lemma_yield_monotonic(
    rates: Map<AccountKey, Ratio>,
    lower: Seq<Vault>,
    higher: Seq<Vault>,
    protocol_token_supply: u64,
)
    requires
        all_rates_valid(rates),
        balances_raised(lower, higher),
    ensures
        yield_of(total_backing_value(rates, lower) as int, protocol_token_supply as int)
            <= yield_of(total_backing_value(rates, higher) as int, protocol_token_supply as int),
        extractable_yield(rates, lower, protocol_token_supply) matches Ok(before) ==> (
        extractable_yield(rates, higher, protocol_token_supply) matches Ok(after) ==> before
            <= after),
{
    lemma_backing_monotonic(rates, lower, higher);
}

} // verus!
