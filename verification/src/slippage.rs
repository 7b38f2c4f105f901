//! The smallest output a swap may accept, given a tolerated slippage.

use crate::amount::{amount_limit, amount_of, lemma_view_amount_of, lemma_view_injective, Amount};
use crate::error::SwapError;
use vstd::prelude::*;

verus! {

/// One hundred percent, in basis points.
pub const BPS_DENOMINATOR: u64 = 10_000;

/// `floor(amount_in * (10000 - slippage_bps) / 10000)`.
pub open spec fn min_out(amount_in: nat, slippage_bps: nat) -> nat
    recommends
        slippage_bps <= 10_000,
{
    (amount_in * (10_000 - slippage_bps) / 10_000) as nat
}

/// What [`compute_min_out`] returns: a tolerance above 10000 basis points is
/// invalid, a product of `amount_in` and the kept share that leaves 256 bits
/// overflows, and otherwise the result is [`min_out`].
pub open spec fn min_out_spec(amount_in: Amount, slippage_bps: Amount) -> Result<Amount, SwapError> {
    if slippage_bps@ > 10_000 {
        Err(SwapError::InvalidInput)
    } else if amount_in@ * (10_000 - slippage_bps@) >= amount_limit() {
        Err(SwapError::ArithmeticOverflow)
    } else {
        Ok(amount_of(min_out(amount_in@, slippage_bps@)))
    }
}

/// The minimum never exceeds the input, and equals it when no slippage is
/// tolerated.
pub proof fn lemma_min_out_bounded(amount_in: nat, slippage_bps: nat)
    requires
        slippage_bps <= 10_000,
    ensures
        min_out(amount_in, slippage_bps) <= amount_in,
        min_out(amount_in, 0) == amount_in,
{
    let kept = (10_000 - slippage_bps) as nat;
    assert(amount_in * kept <= amount_in * 10_000) by (nonlinear_arith)
        requires
            kept <= 10_000,
    ;
    assert(amount_in * 10_000 / 10_000 == amount_in);
    assert(amount_in * kept / 10_000 <= amount_in * 10_000 / 10_000);
}

/// For a fixed input, tolerating more slippage never raises the minimum.
pub proof fn lemma_min_out_monotonic(amount_in: nat, low_bps: nat, high_bps: nat)
    requires
        low_bps <= high_bps <= 10_000,
    ensures
        min_out(amount_in, high_bps) <= min_out(amount_in, low_bps),
{
    let kept_low = (10_000 - low_bps) as nat;
    let kept_high = (10_000 - high_bps) as nat;
    assert(amount_in * kept_high <= amount_in * kept_low) by (nonlinear_arith)
        requires
            kept_high <= kept_low,
    ;
}

/// The minimum output for `amount_in` under a tolerance of `slippage_bps`
/// basis points, rounded down.
///
/// Fails with `InvalidInput` when the tolerance is above 10000, and with
/// `ArithmeticOverflow` when `amount_in * (10000 - slippage_bps)` does not
/// fit in 256 bits.
pub fn compute_min_out(amount_in: Amount, slippage_bps: Amount) -> (r: Result<Amount, SwapError>)
    ensures
        r == min_out_spec(amount_in, slippage_bps),
        r matches Ok(m) ==> m@ == min_out(amount_in@, slippage_bps@) && m@ <= amount_in@,
        r is Ok && slippage_bps@ == 0 ==> r == Ok::<Amount, SwapError>(amount_in),
{
    let scale = Amount::from_u64(BPS_DENOMINATOR);
    match scale.checked_sub(slippage_bps) {
        None => Err(SwapError::InvalidInput),
        Some(kept) => match amount_in.checked_mul(kept) {
            None => Err(SwapError::ArithmeticOverflow),
            Some(product) => match product.checked_div(scale) {
                None => Err(SwapError::ArithmeticOverflow),
                Some(m) => {
                    proof {
                        lemma_min_out_bounded(amount_in@, slippage_bps@);
                        if slippage_bps@ == 0 {
                            lemma_view_injective(m, amount_in);
                        }
                    }
                    Ok(m)
                },
            },
        },
    }
}

/// Whenever [`compute_min_out`] succeeds, its result is at most the input,
/// and it is the input itself under a tolerance of zero.
pub proof fn lemma_compute_min_out_bounded(amount_in: Amount, slippage_bps: Amount)
    requires
        slippage_bps@ <= 10_000,
    ensures
        min_out_spec(amount_in, slippage_bps) matches Ok(m) ==> m@ <= amount_in@,
        slippage_bps@ == 0 ==> (min_out_spec(amount_in, slippage_bps) matches Ok(m) ==> m == amount_in),
{
    lemma_min_out_bounded(amount_in@, slippage_bps@);
    if let Ok(m) = min_out_spec(amount_in, slippage_bps) {
        crate::amount::lemma_amount_of_view(amount_in);
        lemma_view_amount_of(min_out(amount_in@, slippage_bps@));
        if slippage_bps@ == 0 {
            lemma_view_injective(m, amount_in);
        }
    }
}

/// [`compute_min_out`] does not increase as the tolerance grows: where it
/// succeeds for the smaller tolerance it succeeds for the larger one too, with
/// a result that is no greater.
pub proof fn lemma_compute_min_out_monotonic(amount_in: Amount, low_bps: Amount, high_bps: Amount)
    requires
        low_bps@ <= high_bps@ <= 10_000,
    ensures
        min_out_spec(amount_in, low_bps) matches Ok(at_low) ==> (min_out_spec(
            amount_in,
            high_bps,
        ) matches Ok(at_high) && at_high@ <= at_low@),
{
    if let Ok(at_low) = min_out_spec(amount_in, low_bps) {
        let a = amount_in@;
        let kept_low = (10_000 - low_bps@) as nat;
        let kept_high = (10_000 - high_bps@) as nat;
        assert(a * kept_high <= a * kept_low) by (nonlinear_arith)
            requires
                kept_high <= kept_low,
        ;
        lemma_min_out_monotonic(a, low_bps@, high_bps@);
        crate::amount::lemma_amount_of_view(amount_in);
        lemma_min_out_bounded(a, low_bps@);
        lemma_min_out_bounded(a, high_bps@);
        lemma_view_amount_of(min_out(a, low_bps@));
        lemma_view_amount_of(min_out(a, high_bps@));
    }
}

/// Inputs of equal value give equal results.
pub proof fn lemma_compute_min_out_deterministic(
    amount_in: Amount,
    slippage_bps: Amount,
    amount_in_again: Amount,
    slippage_bps_again: Amount,
)
    requires
        amount_in@ == amount_in_again@,
        slippage_bps@ == slippage_bps_again@,
    ensures
        min_out_spec(amount_in, slippage_bps) == min_out_spec(amount_in_again, slippage_bps_again),
{
}

} // verus!
