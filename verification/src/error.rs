use vstd::prelude::*;

verus! {

/// Why an extraction was aborted. Every error is fatal to the whole operation:
/// no balance is changed when one is returned.
#[derive(Clone, Copy, Debug, PartialEq, Eq, Structural)]
pub enum ExtractionError {
    /// A supplied account does not match the relationship recorded in the
    /// protocol state, or a vault authority was used on a vault it is not
    /// scoped to.
    ConstraintViolation,
    /// An amount does not fit the 64-bit integer that balances are kept in.
    ArithmeticOverflow,
    /// A balance would fall below zero.
    ArithmeticUnderflow,
    /// A conversion named a pool that is not registered.
    UnknownPool,
    /// The liquidity mechanism cannot cover the swap from its base-currency leg.
    InsufficientLiquidity,
    /// The liquidity mechanism failed for another reason.
    ExternalCallFailed,
}

} // verus!
