//! The three shapes of a swap and the route each one takes.

use crate::address::{lemma_address_view_injective, Address};
use vstd::prelude::*;

verus! {

/// Which side of a swap, if any, is the chain's native currency.
#[derive(Clone, Copy, Debug, PartialEq, Eq, Hash)]
pub enum SwapVariant {
    /// Native currency in, token out.
    NativeToToken,
    /// Token in, native currency out.
    TokenToNative,
    /// Token in, another token out.
    TokenToToken,
}

impl SwapVariant {
    /// The variant that a pair of flags selects: a native input wins over a
    /// native output, and with neither flag the swap is token to token.
    pub open spec fn spec_from_flags(native_input: bool, native_output: bool) -> SwapVariant {
        if native_input {
            SwapVariant::NativeToToken
        } else if native_output {
            SwapVariant::TokenToNative
        } else {
            SwapVariant::TokenToToken
        }
    }

    #[verifier::when_used_as_spec(spec_from_flags)]
    pub fn from_flags(native_input: bool, native_output: bool) -> (r: SwapVariant)
        ensures
            r == Self::spec_from_flags(native_input, native_output),
    {
        if native_input {
            SwapVariant::NativeToToken
        } else if native_output {
            SwapVariant::TokenToNative
        } else {
            SwapVariant::TokenToToken
        }
    }
}

/// The route of a swap through the router: always exactly two assets.
#[derive(Clone, Copy, Debug, PartialEq, Eq, Hash)]
pub struct SwapPath {
    /// The asset the router takes.
    pub source: Address,
    /// The asset the router pays out.
    pub target: Address,
}

impl View for SwapPath {
    type V = Seq<Address>;

    open spec fn view(&self) -> Seq<Address> {
        seq![self.source, self.target]
    }
}

impl SwapPath {
    /// The route as the router expects it: source first, target last.
    pub fn to_vec(&self) -> (v: Vec<Address>)
        ensures
            v@ == self@,
    {
        let mut v: Vec<Address> = Vec::new();
        v.push(self.source);
        v.push(self.target);
        assert(v@ =~= self@);
        v
    }
}

/// The route of each variant. A side that is the native currency is routed
/// through the bridge asset, and the token named for that side is ignored.
pub open spec fn resolve_spec(
    variant: SwapVariant,
    token_in: Address,
    token_out: Address,
    bridge_asset: Address,
) -> SwapPath {
    match variant {
        SwapVariant::NativeToToken => SwapPath { source: bridge_asset, target: token_out },
        SwapVariant::TokenToNative => SwapPath { source: token_in, target: bridge_asset },
        SwapVariant::TokenToToken => SwapPath { source: token_in, target: token_out },
    }
}

/// Resolves the route of a swap. There is no search for intermediate hops:
/// a token-to-token swap goes directly from one token to the other.
pub fn resolve(
    variant: SwapVariant,
    token_in: Address,
    token_out: Address,
    bridge_asset: Address,
) -> (path: SwapPath)
    ensures
        path == resolve_spec(variant, token_in, token_out, bridge_asset),
        path@.len() == 2,
        variant is NativeToToken ==> path@ == seq![bridge_asset, token_out],
        variant is TokenToNative ==> path@ == seq![token_in, bridge_asset],
        variant is TokenToToken ==> path@ == seq![token_in, token_out],
{
    match variant {
        SwapVariant::NativeToToken => SwapPath { source: bridge_asset, target: token_out },
        SwapVariant::TokenToNative => SwapPath { source: token_in, target: bridge_asset },
        SwapVariant::TokenToToken => SwapPath { source: token_in, target: token_out },
    }
}

/// A swap out of the native currency starts at the bridge asset, and a swap
/// into it ends there, whatever tokens are named.
pub proof fn lemma_resolve_bridge_ends(
    variant: SwapVariant,
    token_in: Address,
    token_out: Address,
    bridge_asset: Address,
)
    ensures
        variant is NativeToToken ==> resolve_spec(variant, token_in, token_out, bridge_asset)@.first()
            == bridge_asset,
        variant is TokenToNative ==> resolve_spec(variant, token_in, token_out, bridge_asset)@.last()
            == bridge_asset,
{
}

/// Inputs of equal value give equal routes.
pub proof fn lemma_resolve_deterministic(
    variant: SwapVariant,
    token_in: Address,
    token_out: Address,
    bridge_asset: Address,
    token_in_again: Address,
    token_out_again: Address,
    bridge_asset_again: Address,
)
    requires
        token_in@ == token_in_again@,
        token_out@ == token_out_again@,
        bridge_asset@ == bridge_asset_again@,
    ensures
        resolve_spec(variant, token_in, token_out, bridge_asset) == resolve_spec(
            variant,
            token_in_again,
            token_out_again,
            bridge_asset_again,
        ),
{
    lemma_address_view_injective(token_in, token_in_again);
    lemma_address_view_injective(token_out, token_out_again);
    lemma_address_view_injective(bridge_asset, bridge_asset_again);
}

} // verus!
