//! The calls that the router accepts.

use crate::address::Address;
use crate::amount::Amount;
use crate::path::SwapPath;
use vstd::prelude::*;

verus! {

/// A call to the router, in one of the three shapes it offers.
#[derive(Clone, Copy, Debug, PartialEq, Eq)]
pub enum SwapCall {
    /// Sells native currency: the amount sold travels as the value attached
    /// to the call, and no fee override is set.
    NativeForToken {
        min_out: Amount,
        path: SwapPath,
        recipient: Address,
        deadline: Amount,
        value: Amount,
    },
    /// Buys native currency: the amount sold is an argument, and the call
    /// carries an escalated gas price and an explicit nonce.
    TokenForNative {
        amount_in: Amount,
        min_out: Amount,
        path: SwapPath,
        recipient: Address,
        deadline: Amount,
        fee_override: Amount,
        nonce: Amount,
    },
    /// Trades one token for another: the amount sold is an argument and is
    /// attached as value as well.
    TokenForToken {
        amount_in: Amount,
        min_out: Amount,
        path: SwapPath,
        recipient: Address,
        deadline: Amount,
        value: Amount,
    },
}

impl SwapCall {
    /// The name of the router method that the call invokes.
    pub open spec fn spec_method_name(&self) -> Seq<char> {
        match self {
            SwapCall::NativeForToken { .. } => "swapExactETHForTokens"@,
            SwapCall::TokenForNative { .. } => "swapExactTokensForETH"@,
            SwapCall::TokenForToken { .. } => "swapExactTokensForTokens"@,
        }
    }

    /// The native value attached to the call, if it has one.
    pub open spec fn spec_attached_value(&self) -> Option<Amount> {
        match self {
            SwapCall::NativeForToken { value, .. } => Some(*value),
            SwapCall::TokenForNative { .. } => None,
            SwapCall::TokenForToken { value, .. } => Some(*value),
        }
    }

    /// The gas price that overrides the client's own, if the call sets one.
    pub open spec fn spec_fee_override(&self) -> Option<Amount> {
        match self {
            SwapCall::TokenForNative { fee_override, .. } => Some(*fee_override),
            _ => None,
        }
    }

    /// The nonce that the call fixes, if it fixes one.
    pub open spec fn spec_nonce(&self) -> Option<Amount> {
        match self {
            SwapCall::TokenForNative { nonce, .. } => Some(*nonce),
            _ => None,
        }
    }

    /// The name of the router method that the call invokes.
    pub fn method_name(&self) -> (name: &'static str)
        ensures
            name@ == self.spec_method_name(),
    {
        match self {
            SwapCall::NativeForToken { .. } => "swapExactETHForTokens",
            SwapCall::TokenForNative { .. } => "swapExactTokensForETH",
            SwapCall::TokenForToken { .. } => "swapExactTokensForTokens",
        }
    }

    /// The native value attached to the call, if it has one.
    #[verifier::when_used_as_spec(spec_attached_value)]
    pub fn attached_value(&self) -> (value: Option<Amount>)
        ensures
            value == self.spec_attached_value(),
    {
        match self {
            SwapCall::NativeForToken { value, .. } => Some(*value),
            SwapCall::TokenForNative { .. } => None,
            SwapCall::TokenForToken { value, .. } => Some(*value),
        }
    }

    /// The gas price that overrides the client's own, if the call sets one.
    #[verifier::when_used_as_spec(spec_fee_override)]
    pub fn fee_override(&self) -> (fee: Option<Amount>)
        ensures
            fee == self.spec_fee_override(),
    {
        match self {
            SwapCall::TokenForNative { fee_override, .. } => Some(*fee_override),
            _ => None,
        }
    }

    /// The nonce that the call fixes, if it fixes one.
    #[verifier::when_used_as_spec(spec_nonce)]
    pub fn nonce(&self) -> (nonce: Option<Amount>)
        ensures
            nonce == self.spec_nonce(),
    {
        match self {
            SwapCall::TokenForNative { nonce, .. } => Some(*nonce),
            _ => None,
        }
    }
}

} // verus!
