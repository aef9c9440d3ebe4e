use crate::account::{AccountKey, Mint, TokenAccount, Treasury};
use crate::accountant::{
    compute_extractable_yield, extractable_yield, total_backing_value, vault_value, yield_of,
    Vault,
};
use crate::authority::{debit_decision, issued_authority, AuthorityScope, VaultAuthority};
use crate::error::ExtractionError;
use crate::pools::{all_rates_valid, pool_to_derivative, PoolRates};
use crate::rate::{
    lemma_withdrawal_costs_at_most, lemma_zero_converts_to_zero, ExchangeRate, Ratio,
};
use vstd::prelude::*;

verus! {

/// The protocol's configuration record: which accounts belong to it. It is
/// written once when the protocol is set up and only read here.
#[derive(Clone, Copy, Debug, PartialEq, Eq)]
pub struct ProtocolState {
    pub key: AccountKey,
    /// Where extracted yield goes.
    pub treasury: AccountKey,
    /// State account of the primary pool, whose vault yield is taken from.
    pub marinade_state: AccountKey,
    /// State account of the secondary pool.
    pub blaze_state: AccountKey,
    /// Mint of the protocol token.
    pub gsol_mint: AccountKey,
    /// Address of the authority scoped to the primary pool's vault, as it
    /// is derived from this record's key and `msol_authority_bump`.
    pub msol_authority: AccountKey,
    pub msol_authority_bump: u8,
    /// Address of the authority scoped to the secondary pool's vault.
    pub bsol_authority: AccountKey,
    pub bsol_authority_bump: u8,
}

/// A staking pool's state account with the exchange rate read from it.
#[derive(Clone, Copy, Debug, PartialEq, Eq)]
pub struct PoolState {
    pub key: AccountKey,
    pub rate: ExchangeRate,
}

/// The accounts one extraction works on, as read at its start.
#[derive(Clone, Copy, Debug, PartialEq, Eq)]
pub struct ExtractToTreasury {
    pub state: ProtocolState,
    pub marinade_state: PoolState,
    pub blaze_state: PoolState,
    /// Mint of the primary pool's derivative token.
    pub msol_mint: Mint,
    /// Mint of the protocol token; its supply is the principal owed.
    pub gsol_mint: Mint,
    /// Mint of the secondary pool's derivative token.
    pub bsol_mint: Mint,
    /// Mint of the liquidity pool's share token.
    pub liq_pool_mint: Mint,
    /// Base-currency leg of the liquidity pool.
    pub liq_pool_sol_leg_pda: AccountKey,
    /// Derivative-token leg of the liquidity pool.
    pub liq_pool_msol_leg: TokenAccount,
    /// The protocol's holding of liquidity-pool shares.
    pub liq_pool_token_account: TokenAccount,
    pub treasury_msol_account: TokenAccount,
    /// The primary pool's vault: the one that is debited.
    pub get_msol_from: TokenAccount,
    pub get_msol_from_authority: AccountKey,
    /// The secondary pool's vault.
    pub get_bsol_from: TokenAccount,
    pub get_bsol_from_authority: AccountKey,
    pub treasury: Treasury,
}

/// What the liquidity mechanism is asked to do: swap `derivative_amount`
/// units out of `vault` for base currency, paid to the treasury.
#[derive(Clone, Copy, Debug, PartialEq, Eq)]
pub struct SwapRequest {
    pub pool: AccountKey,
    pub vault: AccountKey,
    pub authority: AccountKey,
    pub authority_bump: u8,
    pub derivative_amount: u64,
    /// The yield, in base currency, that the amount was computed from.
    pub extractable_yield: u64,
}

/// What the liquidity mechanism answered.
#[derive(Clone, Copy, Debug, PartialEq, Eq)]
pub enum SwapOutcome {
    /// The swap went through and this much base currency was credited.
    Credited(u64),
    /// The base-currency leg cannot cover the swap.
    InsufficientLiquidity,
    /// The call failed for another reason.
    Failed,
}

/// What one completed extraction moved.
#[derive(Clone, Copy, Debug, PartialEq, Eq)]
pub struct ExtractionResult {
    pub extractable_yield: u64,
    pub derivative_debited: u64,
    pub base_credited: u64,
}

impl ExtractToTreasury {
    /// Every supplied account is the one the protocol state records, each
    /// vault holds its pool's token, and each is controlled by the authority
    /// scoped to it.
    pub open spec fn accounts_consistent(&self) -> bool {
        &&& self.state.treasury == self.treasury.key
        &&& self.state.marinade_state == self.marinade_state.key
        &&& self.state.blaze_state == self.blaze_state.key
        &&& self.state.gsol_mint == self.gsol_mint.key
        &&& self.liq_pool_token_account.mint == self.liq_pool_mint.key
        &&& self.liq_pool_token_account.authority == self.get_msol_from_authority
        &&& self.get_msol_from.mint == self.msol_mint.key
        &&& self.get_msol_from.authority == self.get_msol_from_authority
        &&& self.get_msol_from_authority == self.state.msol_authority
        &&& self.get_bsol_from.mint == self.bsol_mint.key
        &&& self.get_bsol_from.authority == self.get_bsol_from_authority
        &&& self.get_bsol_from_authority == self.state.bsol_authority
    }

    /// The primary pool's vault.
    pub open spec fn msol_vault(&self) -> Vault {
        Vault {
            key: self.get_msol_from.key,
            pool: self.marinade_state.key,
            authority: self.get_msol_from.authority,
            balance: self.get_msol_from.amount,
        }
    }

    /// The secondary pool's vault.
    pub open spec fn bsol_vault(&self) -> Vault {
        Vault {
            key: self.get_bsol_from.key,
            pool: self.blaze_state.key,
            authority: self.get_bsol_from.authority,
            balance: self.get_bsol_from.amount,
        }
    }

    /// All vaults that back the protocol token.
    pub open spec fn vaults(&self) -> Seq<Vault> {
        seq![self.msol_vault(), self.bsol_vault()]
    }

    /// The current rate of each pool.
    pub open spec fn rates(&self) -> Map<AccountKey, Ratio> {
        Map::<AccountKey, Ratio>::empty().insert(
            self.marinade_state.key,
            self.marinade_state.rate@,
        ).insert(self.blaze_state.key, self.blaze_state.rate@)
    }

    /// Checks the supplied accounts against the protocol state, all in one
    /// pass and before anything else is done.
    pub fn validate(&self) -> (checked: Result<(), ExtractionError>)
        ensures
            checked is Ok <==> self.accounts_consistent(),
            checked matches Err(e) ==> e == ExtractionError::ConstraintViolation,
    {
        let consistent = self.state.treasury.matches(&self.treasury.key)
            && self.state.marinade_state.matches(&self.marinade_state.key)
            && self.state.blaze_state.matches(&self.blaze_state.key)
            && self.state.gsol_mint.matches(&self.gsol_mint.key)
            && self.liq_pool_token_account.mint.matches(&self.liq_pool_mint.key)
            && self.liq_pool_token_account.authority.matches(&self.get_msol_from_authority)
            && self.get_msol_from.mint.matches(&self.msol_mint.key)
            && self.get_msol_from.authority.matches(&self.get_msol_from_authority)
            && self.get_msol_from_authority.matches(&self.state.msol_authority)
            && self.get_bsol_from.mint.matches(&self.bsol_mint.key)
            && self.get_bsol_from.authority.matches(&self.get_bsol_from_authority)
            && self.get_bsol_from_authority.matches(&self.state.bsol_authority);
        if consistent {
            Ok(())
        } else {
            Err(ExtractionError::ConstraintViolation)
        }
    }

    /// The vault that an extraction debits: the primary pool's.
    pub fn designated_vault(&self) -> (vault: Vault)
        ensures
            vault == self.msol_vault(),
    {
        Vault {
            key: self.get_msol_from.key,
            pool: self.marinade_state.key,
            authority: self.get_msol_from.authority,
            balance: self.get_msol_from.amount,
        }
    }

    /// The vaults that back the protocol token, the designated one first.
    pub fn collect_vaults(&self) -> (vaults: Vec<Vault>)
        ensures
            vaults@ == self.vaults(),
    {
        let mut vaults: Vec<Vault> = Vec::new();
        vaults.push(self.designated_vault());
        vaults.push(
            Vault {
                key: self.get_bsol_from.key,
                pool: self.blaze_state.key,
                authority: self.get_bsol_from.authority,
                balance: self.get_bsol_from.amount,
            },
        );
        vaults
    }

    /// The registry of both pools with the rates read from their state.
    pub fn collect_rates(&self) -> (rates: PoolRates)
        ensures
            rates@ == self.rates(),
            all_rates_valid(rates@),
    {
        proof {
            use_type_invariant(&self.marinade_state.rate);
            use_type_invariant(&self.blaze_state.rate);
        }
        let mut rates = PoolRates::new();
        rates.set_rate(self.marinade_state.key, self.marinade_state.rate);
        rates.set_rate(self.blaze_state.key, self.blaze_state.rate);
        rates
    }

    /// Records the liquidity mechanism's answer to `request`. After a swap
    /// that went through, the designated vault holds `derivative_amount`
    /// units less and the treasury the credited base currency more; nothing
    /// else changes. After anything else the accounts are as they were.
    pub fn settle(&mut self, request: &SwapRequest, outcome: SwapOutcome) -> (result: Result<
        ExtractionResult,
        ExtractionError,
    >)
        ensures
            *final(self) == accounts_after(*old(self), *request, outcome),
            match settlement(*old(self), *request, outcome) {
                Ok(settled) => result == Ok::<ExtractionResult, ExtractionError>(
                    extraction_result(*request, outcome),
                ),
                Err(e) => result == Err::<ExtractionResult, ExtractionError>(e),
            },
    {
        match self.validate() {
            Err(e) => {
                return Err(e);
            },
            Ok(()) => {},
        }
        if !request.pool.matches(&self.marinade_state.key) {
            return Err(ExtractionError::ConstraintViolation);
        }
        let vault = self.designated_vault();
        let authority = match VaultAuthority::issue(
            &vault,
            &self.state.msol_authority,
            self.state.msol_authority_bump,
        ) {
            Ok(authority) => authority,
            Err(e) => {
                return Err(e);
            },
        };
        let leave = match authority.authorize_debit(&request.vault, request.derivative_amount) {
            Ok(leave) => leave,
            Err(e) => {
                return Err(e);
            },
        };
        if !request.authority.matches(&leave.signer) || request.authority_bump != leave.bump {
            return Err(ExtractionError::ConstraintViolation);
        }
        if leave.amount > vault.balance {
            return Err(ExtractionError::ArithmeticUnderflow);
        }
        match outcome {
            SwapOutcome::InsufficientLiquidity => Err(ExtractionError::InsufficientLiquidity),
            SwapOutcome::Failed => Err(ExtractionError::ExternalCallFailed),
            SwapOutcome::Credited(base_credited) => {
                if base_credited > u64::MAX - self.treasury.lamports {
                    return Err(ExtractionError::ArithmeticOverflow);
                }
                self.get_msol_from.amount = vault.balance - leave.amount;
                self.treasury.lamports = self.treasury.lamports + base_credited;
                Ok(
                    ExtractionResult {
                        extractable_yield: request.extractable_yield,
                        derivative_debited: leave.amount,
                        base_credited,
                    },
                )
            },
        }
    }
}

/// The authority scoped to the designated vault, as the protocol state
/// records it.
pub open spec fn designated_authority(ctx: ExtractToTreasury) -> Result<
    AuthorityScope,
    ExtractionError,
> {
    issued_authority(ctx.msol_vault(), ctx.state.msol_authority, ctx.state.msol_authority_bump)
}

/// What an extraction on `ctx` asks of the liquidity mechanism, or why it
/// is aborted before asking:
/// `ConstraintViolation` unless the accounts are consistent; else the error
/// of the yield computation or of its conversion into units of the primary
/// pool's token; else `ArithmeticUnderflow` if the designated vault holds
/// fewer units than that; else the request to swap exactly those units.
pub open spec fn extraction_plan(ctx: ExtractToTreasury) -> Result<SwapRequest, ExtractionError> {
    if !ctx.accounts_consistent() {
        Err(ExtractionError::ConstraintViolation)
    } else {
        match extractable_yield(ctx.rates(), ctx.vaults(), ctx.gsol_mint.supply) {
            Err(e) => Err(e),
            Ok(extractable) => match pool_to_derivative(
                ctx.rates(),
                ctx.marinade_state.key,
                extractable,
            ) {
                Err(e) => Err(e),
                Ok(derivative_amount) => if derivative_amount > ctx.get_msol_from.amount {
                    Err(ExtractionError::ArithmeticUnderflow)
                } else {
                    Ok(
                        SwapRequest {
                            pool: ctx.marinade_state.key,
                            vault: ctx.get_msol_from.key,
                            authority: ctx.state.msol_authority,
                            authority_bump: ctx.state.msol_authority_bump,
                            derivative_amount,
                            extractable_yield: extractable,
                        },
                    )
                },
            },
        }
    }
}

/// Decides what one extraction does: validates the accounts, computes the
/// extractable yield over both vaults against the protocol token's supply,
/// converts it into units of the primary pool's derivative token and has
/// the debit of the designated vault authorized. It changes nothing; the
/// request it returns is what the liquidity mechanism is to carry out.
pub fn extract_to_treasury_handler(ctx: &ExtractToTreasury) -> (plan: Result<
    SwapRequest,
    ExtractionError,
>)
    ensures
        plan == extraction_plan(*ctx),
{
    match ctx.validate() {
        Err(e) => {
            return Err(e);
        },
        Ok(()) => {},
    }
    let rates = ctx.collect_rates();
    let vaults = ctx.collect_vaults();
    let extractable = match compute_extractable_yield(&vaults, &rates, ctx.gsol_mint.supply) {
        Ok(extractable) => extractable,
        Err(e) => {
            return Err(e);
        },
    };
    let derivative_amount = match rates.to_derivative_units(&ctx.marinade_state.key, extractable) {
        Ok(amount) => amount,
        Err(e) => {
            return Err(e);
        },
    };
    let vault = ctx.designated_vault();
    let authority = match VaultAuthority::issue(
        &vault,
        &ctx.state.msol_authority,
        ctx.state.msol_authority_bump,
    ) {
        Ok(authority) => authority,
        Err(e) => {
            return Err(e);
        },
    };
    let leave = match authority.authorize_debit(&vault.key, derivative_amount) {
        Ok(leave) => leave,
        Err(e) => {
            return Err(e);
        },
    };
    if leave.amount > vault.balance {
        return Err(ExtractionError::ArithmeticUnderflow);
    }
    Ok(
        SwapRequest {
            pool: ctx.marinade_state.key,
            vault: leave.vault,
            authority: leave.signer,
            authority_bump: leave.bump,
            derivative_amount: leave.amount,
            extractable_yield: extractable,
        },
    )
}

/// The accounts after a swap that went through, or why `request` with
/// `outcome` is not recorded:
/// `ConstraintViolation` unless the accounts are consistent, the request is
/// for the primary pool, the authority over the designated vault gives
/// leave to debit the vault the request names, and the request was made
/// under that authority; else `ArithmeticUnderflow` if the vault holds
/// fewer units than the request debits; else the liquidity mechanism's own
/// failure; else `ArithmeticOverflow` if the credit does not fit the
/// treasury's balance.
pub open spec fn settlement(
    ctx: ExtractToTreasury,
    request: SwapRequest,
    outcome: SwapOutcome,
) -> Result<ExtractToTreasury, ExtractionError> {
    if !ctx.accounts_consistent() {
        Err(ExtractionError::ConstraintViolation)
    } else if request.pool != ctx.marinade_state.key {
        Err(ExtractionError::ConstraintViolation)
    } else {
        match designated_authority(ctx) {
            Err(e) => Err(e),
            Ok(scope) => match debit_decision(scope, request.vault, request.derivative_amount) {
                Err(e) => Err(e),
                Ok(leave) => if request.authority != leave.signer || request.authority_bump
                    != leave.bump {
                    Err(ExtractionError::ConstraintViolation)
                } else if leave.amount > ctx.get_msol_from.amount {
                    Err(ExtractionError::ArithmeticUnderflow)
                } else {
                    match outcome {
                        SwapOutcome::InsufficientLiquidity => Err(
                            ExtractionError::InsufficientLiquidity,
                        ),
                        SwapOutcome::Failed => Err(ExtractionError::ExternalCallFailed),
                        SwapOutcome::Credited(base_credited) => if ctx.treasury.lamports
                            + base_credited > u64::MAX {
                            Err(ExtractionError::ArithmeticOverflow)
                        } else {
                            Ok(
                                ExtractToTreasury {
                                    get_msol_from: TokenAccount {
                                        amount: (ctx.get_msol_from.amount - leave.amount) as u64,
                                        ..ctx.get_msol_from
                                    },
                                    treasury: Treasury {
                                        lamports: (ctx.treasury.lamports + base_credited) as u64,
                                        ..ctx.treasury
                                    },
                                    ..ctx
                                },
                            )
                        },
                    }
                },
            },
        }
    }
}

/// The accounts once `outcome` has been recorded: changed by a swap that
/// went through, untouched by anything else.
pub open spec fn accounts_after(
    ctx: ExtractToTreasury,
    request: SwapRequest,
    outcome: SwapOutcome,
) -> ExtractToTreasury {
    match settlement(ctx, request, outcome) {
        Ok(settled) => settled,
        Err(_) => ctx,
    }
}

/// What a completed extraction reports.
pub open spec fn extraction_result(request: SwapRequest, outcome: SwapOutcome) -> ExtractionResult {
    ExtractionResult {
        extractable_yield: request.extractable_yield,
        derivative_debited: request.derivative_amount,
        base_credited: match outcome {
            SwapOutcome::Credited(base_credited) => base_credited,
            _ => 0,
        },
    }
}

/// Both pools' rates can be used for conversion. This holds of every value
/// of the accounts that exists at run time.
pub open spec fn rates_usable(ctx: ExtractToTreasury) -> bool {
    ctx.marinade_state.rate@.is_valid() && ctx.blaze_state.rate@.is_valid()
}

/// Total backing value of the accounts' vaults at the accounts' rates.
pub open spec fn backing_of(ctx: ExtractToTreasury) -> nat {
    total_backing_value(ctx.rates(), ctx.vaults())
}

/// The backing of two vaults is the sum of their values.
proof fn lemma_backing_of_two(ctx: ExtractToTreasury)
    ensures
        backing_of(ctx) == vault_value(ctx.rates(), ctx.msol_vault()) + vault_value(
            ctx.rates(),
            ctx.bsol_vault(),
        ),
{
    reveal_with_fuel(total_backing_value, 3);
}

/// The request that an extraction makes is one that the same accounts
/// accept: once the liquidity mechanism has credited the treasury, it is
/// recorded unless the credit does not fit the treasury's balance, and it is
/// refused with the mechanism's own error when the mechanism failed.
pub proof fn lemma_planned_request_settles(ctx: ExtractToTreasury, outcome: SwapOutcome)
    ensures
        extraction_plan(ctx) matches Ok(request) ==> match outcome {
            SwapOutcome::Credited(base_credited) => settlement(ctx, request, outcome) is Ok
                <==> ctx.treasury.lamports + base_credited <= u64::MAX,
            SwapOutcome::InsufficientLiquidity => settlement(ctx, request, outcome) == Err::<
                ExtractToTreasury,
                ExtractionError,
            >(ExtractionError::InsufficientLiquidity),
            SwapOutcome::Failed => settlement(ctx, request, outcome) == Err::<
                ExtractToTreasury,
                ExtractionError,
            >(ExtractionError::ExternalCallFailed),
        },
{
}

/// Atomicity: when the liquidity mechanism fails, the extraction fails with
/// the mechanism's error or an earlier one, and every account, vaults and
/// treasury among them, is as it was before the call.
pub proof fn lemma_failed_swap_changes_nothing(
    ctx: ExtractToTreasury,
    request: SwapRequest,
    outcome: SwapOutcome,
)
    requires
        outcome !is Credited,
    ensures
        settlement(ctx, request, outcome) is Err,
        accounts_after(ctx, request, outcome) == ctx,
{
}

/// Authority isolation at the point of the debit: the authority over the
/// designated vault gives no leave for another vault, so a request that
/// names another vault is refused with `ConstraintViolation`, whatever the
/// liquidity mechanism answered, and changes nothing.
pub proof fn lemma_request_against_other_vault_is_refused(
    ctx: ExtractToTreasury,
    request: SwapRequest,
    outcome: SwapOutcome,
)
    requires
        request.vault != ctx.get_msol_from.key,
    ensures
        settlement(ctx, request, outcome) == Err::<ExtractToTreasury, ExtractionError>(
            ExtractionError::ConstraintViolation,
        ),
        accounts_after(ctx, request, outcome) == ctx,
{
}

/// Only the designated vault's balance and the treasury's balance are ever
/// changed: the vault goes down by what was debited, the treasury up by what
/// was credited.
pub proof fn lemma_settlement_moves_only_the_swap(
    ctx: ExtractToTreasury,
    request: SwapRequest,
    outcome: SwapOutcome,
)
    ensures
        settlement(ctx, request, outcome) matches Ok(settled) ==> {
            &&& outcome matches SwapOutcome::Credited(base_credited)
            &&& settled.get_msol_from.amount + request.derivative_amount
                == ctx.get_msol_from.amount
            &&& settled.treasury.lamports == ctx.treasury.lamports + base_credited
            &&& settled == (ExtractToTreasury {
                get_msol_from: TokenAccount {
                    amount: settled.get_msol_from.amount,
                    ..ctx.get_msol_from
                },
                treasury: Treasury { lamports: settled.treasury.lamports, ..ctx.treasury },
                ..ctx
            })
        },
{
}

/// A yield of zero is a swap of zero. Where the computed yield is zero, an
/// extraction on consistent accounts asks for a swap of no units; whatever
/// the liquidity mechanism answers, no vault balance changes, and unless the
/// mechanism reports a credit for the empty swap the treasury and every
/// other account are unchanged as well.
pub proof fn lemma_zero_yield_is_noop(ctx: ExtractToTreasury, outcome: SwapOutcome)
    requires
        rates_usable(ctx),
        extractable_yield(ctx.rates(), ctx.vaults(), ctx.gsol_mint.supply) == Ok::<
            u64,
            ExtractionError,
        >(0),
    ensures
        ctx.accounts_consistent() <==> extraction_plan(ctx) is Ok,
        extraction_plan(ctx) matches Ok(request) ==> request.derivative_amount == 0 && {
            let after = accounts_after(ctx, request, outcome);
            &&& after.get_msol_from == ctx.get_msol_from
            &&& after.get_bsol_from == ctx.get_bsol_from
            &&& (outcome matches SwapOutcome::Credited(base_credited) ==> base_credited == 0
                || ctx.treasury.lamports + base_credited > u64::MAX) ==> after == ctx
        },
{
    lemma_zero_converts_to_zero(ctx.rates()[ctx.marinade_state.key]);
}

/// Principal is never extracted. After an extraction that went through, the
/// vaults are still worth the principal owed, or, where they were worth less
/// to begin with, exactly what they were worth before.
pub proof fn lemma_extraction_leaves_principal(ctx: ExtractToTreasury, outcome: SwapOutcome)
    requires
        rates_usable(ctx),
    ensures
        extraction_plan(ctx) matches Ok(request) ==> {
            let after = accounts_after(ctx, request, outcome);
            &&& backing_of(ctx) >= ctx.gsol_mint.supply ==> backing_of(after)
                >= ctx.gsol_mint.supply
            &&& backing_of(ctx) <= ctx.gsol_mint.supply ==> backing_of(after) == backing_of(ctx)
        },
{
    if extraction_plan(ctx) is Ok {
        let request = extraction_plan(ctx)->Ok_0;
        let rate = ctx.rates()[ctx.marinade_state.key];
        lemma_backing_of_two(ctx);
        lemma_backing_of_two(accounts_after(ctx, request, outcome));
        if settlement(ctx, request, outcome) is Ok {
            lemma_withdrawal_costs_at_most(
                rate,
                ctx.get_msol_from.amount as nat,
                request.extractable_yield as nat,
            );
        }
        lemma_zero_converts_to_zero(rate);
    }
}

} // verus!
