//! Escalation of the gas price offered for a transaction.

use crate::amount::{amount_limit, amount_of, Amount};
use crate::error::SwapError;
use crate::slippage::BPS_DENOMINATOR;
use vstd::prelude::*;

verus! {

/// The multiplier applied when none is chosen: twice the base price.
pub const DEFAULT_GAS_MULTIPLIER_BPS: u64 = 20_000;

/// `floor(base_price * multiplier_bps / 10000)`.
pub open spec fn adjusted_price(base_price: nat, multiplier_bps: nat) -> nat {
    base_price * multiplier_bps / 10_000
}

/// What [`compute_adjusted_price`] returns: the product of price and
/// multiplier overflows when it leaves 256 bits, and otherwise the result is
/// [`adjusted_price`].
pub open spec fn adjusted_price_spec(base_price: Amount, multiplier_bps: u64) -> Result<
    Amount,
    SwapError,
> {
    if base_price@ * multiplier_bps >= amount_limit() {
        Err(SwapError::ArithmeticOverflow)
    } else {
        Ok(amount_of(adjusted_price(base_price@, multiplier_bps as nat)))
    }
}

/// The gas price to offer: `base_price` scaled by `multiplier_bps` basis
/// points, rounded down.
///
/// Fails with `ArithmeticOverflow` when `base_price * multiplier_bps` does
/// not fit in 256 bits.
pub fn compute_adjusted_price(base_price: Amount, multiplier_bps: u64) -> (r: Result<
    Amount,
    SwapError,
>)
    ensures
        r == adjusted_price_spec(base_price, multiplier_bps),
        r matches Ok(p) ==> p@ == adjusted_price(base_price@, multiplier_bps as nat),
{
    let scale = Amount::from_u64(BPS_DENOMINATOR);
    match base_price.checked_mul(Amount::from_u64(multiplier_bps)) {
        None => Err(SwapError::ArithmeticOverflow),
        Some(product) => match product.checked_div(scale) {
            None => Err(SwapError::ArithmeticOverflow),
            Some(p) => Ok(p),
        },
    }
}

} // verus!
