//! The swap executor: a state machine that turns a request and the answers
//! of the chain into the one call to submit.
//!
//! The executor performs no I/O. A driver feeds it events and carries out the
//! action it answers with: read the clock, fetch the signer's nonce, fetch the
//! gas price, submit a call. A swap moves through
//! `Idle → PathResolved → AmountsComputed → Submitted` and ends in
//! `Confirmed` or `Failed`; nothing is retried and nothing is rolled back.

use crate::address::{Address, TransactionId};
use crate::amount::Amount;
use crate::call::SwapCall;
use crate::deadline::{deadline_from_reading, deadline_spec, read_unix_time, DEFAULT_HORIZON_SECS};
use crate::error::SwapError;
use crate::gas::{adjusted_price_spec, compute_adjusted_price, DEFAULT_GAS_MULTIPLIER_BPS};
use crate::path::{resolve, resolve_spec, SwapPath, SwapVariant};
use crate::slippage::{compute_min_out, min_out_spec};
use vstd::prelude::*;

verus! {

/// The wrapped-ether contract on the Sepolia test network,
/// `0xfFf9976782d46CC05630D1f6eBAb18b2324d6B14`.
pub open spec fn spec_sepolia_weth() -> Address {
    Address {
        bytes: [
            0xffu8, 0xf9u8, 0x97u8, 0x67u8, 0x82u8, 0xd4u8, 0x6cu8, 0xc0u8, 0x56u8, 0x30u8,
            0xd1u8, 0xf6u8, 0xebu8, 0xabu8, 0x18u8, 0xb2u8, 0x32u8, 0x4du8, 0x6bu8, 0x14u8,
        ],
    }
}

/// The wrapped-ether contract on the Sepolia test network, through which
/// swaps of the native currency are routed.
#[verifier::when_used_as_spec(spec_sepolia_weth)]
pub fn sepolia_weth() -> (r: Address)
    ensures
        r == spec_sepolia_weth(),
{
    Address {
        bytes: [
            0xff, 0xf9, 0x97, 0x67, 0x82, 0xd4, 0x6c, 0xc0, 0x56, 0x30,
            0xd1, 0xf6, 0xeb, 0xab, 0x18, 0xb2, 0x32, 0x4d, 0x6b, 0x14,
        ],
    }
}

/// What a caller asks for: one swap, described whole.
#[derive(Clone, Copy, Debug, PartialEq, Eq)]
pub struct SwapRequest {
    pub variant: SwapVariant,
    /// The token sold; ignored when the native currency is sold.
    pub token_in: Address,
    /// The token bought; ignored when the native currency is bought.
    pub token_out: Address,
    /// How much is sold, in the smallest unit of the asset.
    pub amount_in: Amount,
    /// The tolerated slippage in basis points.
    pub slippage_bps: Amount,
}

impl SwapRequest {
    /// A request is valid when it sells something and tolerates at most 100%
    /// slippage.
    pub open spec fn valid(&self) -> bool {
        self.amount_in@ > 0 && self.slippage_bps@ <= 10_000
    }

    /// Checks the request; `InvalidInput` when it is not valid.
    pub fn validate(&self) -> (r: Result<(), SwapError>)
        ensures
            self.valid() ==> r == Ok::<(), SwapError>(()),
            !self.valid() ==> r == Err::<(), SwapError>(SwapError::InvalidInput),
    {
        if self.amount_in.is_zero() {
            return Err(SwapError::InvalidInput);
        }
        match Amount::from_u64(10_000).checked_sub(self.slippage_bps) {
            Some(_) => Ok(()),
            None => Err(SwapError::InvalidInput),
        }
    }
}

/// Where a swap stands.
#[derive(Clone, Copy, Debug, PartialEq, Eq)]
pub enum SwapState {
    /// Nothing has been requested yet.
    Idle,
    /// The request is valid and its route is known; the clock is awaited.
    PathResolved { request: SwapRequest, path: SwapPath },
    /// Minimum output and deadline are fixed; the chain's nonce, and after it
    /// the gas price, are awaited.
    AmountsComputed {
        request: SwapRequest,
        path: SwapPath,
        min_out: Amount,
        deadline: Amount,
        nonce: Option<Amount>,
    },
    /// The call has been handed over for submission; its broadcast is awaited.
    Submitted { call: SwapCall },
    /// The chain acknowledged the broadcast. This is not on-chain finality.
    Confirmed { transaction: TransactionId },
    /// The swap failed; nothing was left behind to clean up.
    Failed { error: SwapError },
}

/// What the driver reports to the executor.
#[derive(Clone, Copy, Debug, PartialEq, Eq)]
pub enum SwapEvent {
    /// A swap is requested.
    Requested(SwapRequest),
    /// The clock was read: seconds since the Unix epoch, or `None` when the
    /// time could not be obtained or lies before the epoch.
    ClockRead(Option<u64>),
    /// The signer's pending nonce, as the chain reports it.
    NonceFetched(Amount),
    /// The current base gas price, as the chain reports it.
    GasPriceFetched(Amount),
    /// The chain acknowledged the broadcast of the submitted call.
    Broadcast(TransactionId),
    /// A collaborator failed with the given error.
    Fault(SwapError),
}

/// What the executor asks the driver to do next.
#[derive(Clone, Copy, Debug, PartialEq, Eq)]
pub enum SwapAction {
    /// Read the clock and report `ClockRead`.
    ReadClock,
    /// Fetch the signer's pending nonce and report `NonceFetched`.
    FetchNonce,
    /// Fetch the current gas price and report `GasPriceFetched`.
    FetchGasPrice,
    /// Sign and submit the call, wait for the broadcast to be acknowledged,
    /// and report `Broadcast`.
    Submit(SwapCall),
    /// The swap is over, with this outcome.
    Finish(Result<TransactionId, SwapError>),
    /// The event did not answer what the state waits for and was dropped.
    Ignore,
}

/// The failed state for `error`, with the action that reports it.
pub open spec fn failure(error: SwapError) -> (SwapState, SwapAction) {
    (SwapState::Failed { error }, SwapAction::Finish(Err(error)))
}

/// The submitted state for `call`, with the action that submits it.
pub open spec fn submission(call: SwapCall) -> (SwapState, SwapAction) {
    (SwapState::Submitted { call }, SwapAction::Submit(call))
}

/// Executes swaps against one router on behalf of one recipient.
#[derive(Clone, Copy, Debug, PartialEq, Eq)]
pub struct TradeExecutor {
    /// The router contract that the calls go to.
    pub router_address: Address,
    /// Who receives the output of a swap.
    pub recipient: Address,
    /// The wrapped-native asset that stands in for the native currency.
    pub bridge_asset: Address,
}

impl TradeExecutor {
    /// An executor for the given router and recipient, with Sepolia's wrapped
    /// ether as the bridge asset.
    pub fn new(router_address: Address, recipient: Address) -> (r: TradeExecutor)
        ensures
            r == (TradeExecutor { router_address, recipient, bridge_asset: sepolia_weth() }),
    {
        TradeExecutor { router_address, recipient, bridge_asset: sepolia_weth() }
    }

    /// The call that sells native currency for a token.
    pub open spec fn eth_to_token_call(
        &self,
        path: SwapPath,
        amount_in: Amount,
        min_out: Amount,
        deadline: Amount,
    ) -> SwapCall {
        SwapCall::NativeForToken {
            min_out,
            path,
            recipient: self.recipient,
            deadline,
            value: amount_in,
        }
    }

    /// The call that sells a token for native currency, or the overflow of
    /// the gas-price escalation.
    pub open spec fn token_to_eth_call(
        &self,
        path: SwapPath,
        amount_in: Amount,
        min_out: Amount,
        deadline: Amount,
        nonce: Amount,
        base_gas_price: Amount,
    ) -> Result<SwapCall, SwapError> {
        match adjusted_price_spec(base_gas_price, DEFAULT_GAS_MULTIPLIER_BPS) {
            Ok(fee_override) => Ok(
                SwapCall::TokenForNative {
                    amount_in,
                    min_out,
                    path,
                    recipient: self.recipient,
                    deadline,
                    fee_override,
                    nonce,
                },
            ),
            Err(error) => Err(error),
        }
    }

    /// The call that trades one token for another.
    pub open spec fn token_to_token_call(
        &self,
        path: SwapPath,
        amount_in: Amount,
        min_out: Amount,
        deadline: Amount,
    ) -> SwapCall {
        SwapCall::TokenForToken {
            amount_in,
            min_out,
            path,
            recipient: self.recipient,
            deadline,
            value: amount_in,
        }
    }

    /// Builds the call that sells `amount_in` of native currency: the amount
    /// is attached as value, and the call carries no fee override.
    pub fn swap_eth_to_token(
        &self,
        path: SwapPath,
        amount_in: Amount,
        min_out: Amount,
        deadline: Amount,
    ) -> (call: SwapCall)
        ensures
            call == self.eth_to_token_call(path, amount_in, min_out, deadline),
    {
        SwapCall::NativeForToken {
            min_out,
            path,
            recipient: self.recipient,
            deadline,
            value: amount_in,
        }
    }

    /// Builds the call that sells `amount_in` of a token for native currency.
    /// The gas price offered is twice `base_gas_price`, and the call carries
    /// `nonce`. Fails with `ArithmeticOverflow` when the escalated price does
    /// not fit.
    pub fn swap_token_to_eth(
        &self,
        path: SwapPath,
        amount_in: Amount,
        min_out: Amount,
        deadline: Amount,
        nonce: Amount,
        base_gas_price: Amount,
    ) -> (r: Result<SwapCall, SwapError>)
        ensures
            r == self.token_to_eth_call(path, amount_in, min_out, deadline, nonce, base_gas_price),
    {
        match compute_adjusted_price(base_gas_price, DEFAULT_GAS_MULTIPLIER_BPS) {
            Ok(fee_override) => Ok(
                SwapCall::TokenForNative {
                    amount_in,
                    min_out,
                    path,
                    recipient: self.recipient,
                    deadline,
                    fee_override,
                    nonce,
                },
            ),
            Err(error) => Err(error),
        }
    }

    /// Builds the call that trades `amount_in` of one token for another. The
    /// amount is passed as an argument and attached as value too.
    pub fn swap_token_to_token(
        &self,
        path: SwapPath,
        amount_in: Amount,
        min_out: Amount,
        deadline: Amount,
    ) -> (call: SwapCall)
        ensures
            call == self.token_to_token_call(path, amount_in, min_out, deadline),
    {
        SwapCall::TokenForToken {
            amount_in,
            min_out,
            path,
            recipient: self.recipient,
            deadline,
            value: amount_in,
        }
    }

    /// From `Idle`: an invalid request fails, a valid one has its route
    /// resolved and waits for the clock.
    pub open spec fn on_request(&self, request: SwapRequest) -> (SwapState, SwapAction) {
        if !request.valid() {
            failure(SwapError::InvalidInput)
        } else {
            (
                SwapState::PathResolved {
                    request,
                    path: resolve_spec(
                        request.variant,
                        request.token_in,
                        request.token_out,
                        self.bridge_asset,
                    ),
                },
                SwapAction::ReadClock,
            )
        }
    }

    /// From `PathResolved`: the minimum output is computed first, then the
    /// deadline. A swap into native currency then waits for the chain; any
    /// other is ready to submit.
    pub open spec fn on_clock(&self, request: SwapRequest, path: SwapPath, reading: Option<u64>) -> (
        SwapState,
        SwapAction,
    ) {
        match min_out_spec(request.amount_in, request.slippage_bps) {
            Err(error) => failure(error),
            Ok(min_out) => match deadline_spec(reading, DEFAULT_HORIZON_SECS) {
                Err(error) => failure(error),
                Ok(deadline) => match request.variant {
                    SwapVariant::NativeToToken => submission(
                        self.eth_to_token_call(path, request.amount_in, min_out, deadline),
                    ),
                    SwapVariant::TokenToNative => (
                        SwapState::AmountsComputed {
                            request,
                            path,
                            min_out,
                            deadline,
                            nonce: None,
                        },
                        SwapAction::FetchNonce,
                    ),
                    SwapVariant::TokenToToken => submission(
                        self.token_to_token_call(path, request.amount_in, min_out, deadline),
                    ),
                },
            },
        }
    }

    /// From `AmountsComputed` with the nonce known: the gas price is
    /// escalated and the call is ready to submit, unless the escalation
    /// overflows.
    pub open spec fn on_gas_price(
        &self,
        request: SwapRequest,
        path: SwapPath,
        min_out: Amount,
        deadline: Amount,
        nonce: Amount,
        base_gas_price: Amount,
    ) -> (SwapState, SwapAction) {
        match self.token_to_eth_call(
            path,
            request.amount_in,
            min_out,
            deadline,
            nonce,
            base_gas_price,
        ) {
            Ok(call) => submission(call),
            Err(error) => failure(error),
        }
    }

    /// The transition function. `Confirmed` and `Failed` absorb every event
    /// and repeat their outcome. In every other state a fault fails the swap
    /// with the error reported, the event that the state waits for moves it
    /// on, and any other event is dropped.
    pub open spec fn step_spec(&self, state: SwapState, event: SwapEvent) -> (SwapState, SwapAction) {
        match state {
            SwapState::Confirmed { transaction } => (state, SwapAction::Finish(Ok(transaction))),
            SwapState::Failed { error } => (state, SwapAction::Finish(Err(error))),
            _ => match event {
                SwapEvent::Fault(error) => failure(error),
                _ => match (state, event) {
                    (SwapState::Idle, SwapEvent::Requested(request)) => self.on_request(request),
                    (
                        SwapState::PathResolved { request, path },
                        SwapEvent::ClockRead(reading),
                    ) => self.on_clock(request, path, reading),
                    (
                        SwapState::AmountsComputed { request, path, min_out, deadline, nonce: None },
                        SwapEvent::NonceFetched(nonce),
                    ) => (
                        SwapState::AmountsComputed {
                            request,
                            path,
                            min_out,
                            deadline,
                            nonce: Some(nonce),
                        },
                        SwapAction::FetchGasPrice,
                    ),
                    (
                        SwapState::AmountsComputed {
                            request,
                            path,
                            min_out,
                            deadline,
                            nonce: Some(nonce),
                        },
                        SwapEvent::GasPriceFetched(base_gas_price),
                    ) => self.on_gas_price(request, path, min_out, deadline, nonce, base_gas_price),
                    (SwapState::Submitted { call }, SwapEvent::Broadcast(transaction)) => (
                        SwapState::Confirmed { transaction },
                        SwapAction::Finish(Ok(transaction)),
                    ),
                    _ => (state, SwapAction::Ignore),
                },
            },
        }
    }

    /// Advances a swap by one event and says what to do next.
    pub fn step(&self, state: SwapState, event: SwapEvent) -> (r: (SwapState, SwapAction))
        ensures
            r == self.step_spec(state, event),
    {
        match state {
            SwapState::Confirmed { transaction } => {
                return (state, SwapAction::Finish(Ok(transaction)));
            },
            SwapState::Failed { error } => {
                return (state, SwapAction::Finish(Err(error)));
            },
            _ => {},
        }
        if let SwapEvent::Fault(error) = event {
            return fail(error);
        }
        match (state, event) {
            (SwapState::Idle, SwapEvent::Requested(request)) => self.begin(request),
            (SwapState::PathResolved { request, path }, SwapEvent::ClockRead(reading)) => {
                self.compute_amounts(request, path, reading)
            },
            (
                SwapState::AmountsComputed { request, path, min_out, deadline, nonce: None },
                SwapEvent::NonceFetched(nonce),
            ) => (
                SwapState::AmountsComputed { request, path, min_out, deadline, nonce: Some(nonce) },
                SwapAction::FetchGasPrice,
            ),
            (
                SwapState::AmountsComputed { request, path, min_out, deadline, nonce: Some(nonce) },
                SwapEvent::GasPriceFetched(base_gas_price),
            ) => {
                match self.swap_token_to_eth(
                    path,
                    request.amount_in,
                    min_out,
                    deadline,
                    nonce,
                    base_gas_price,
                ) {
                    Ok(call) => submit(call),
                    Err(error) => fail(error),
                }
            },
            (SwapState::Submitted { call }, SwapEvent::Broadcast(transaction)) => (
                SwapState::Confirmed { transaction },
                SwapAction::Finish(Ok(transaction)),
            ),
            _ => (state, SwapAction::Ignore),
        }
    }

    /// Validates a request and resolves its route.
    fn begin(&self, request: SwapRequest) -> (r: (SwapState, SwapAction))
        ensures
            r == self.on_request(request),
    {
        match request.validate() {
            Err(error) => fail(error),
            Ok(()) => {
                let path = resolve(
                    request.variant,
                    request.token_in,
                    request.token_out,
                    self.bridge_asset,
                );
                (SwapState::PathResolved { request, path }, SwapAction::ReadClock)
            },
        }
    }

    /// Fixes minimum output and deadline, and submits unless the chain has
    /// to be asked first.
    fn compute_amounts(&self, request: SwapRequest, path: SwapPath, reading: Option<u64>) -> (r: (
        SwapState,
        SwapAction,
    ))
        ensures
            r == self.on_clock(request, path, reading),
    {
        let min_out = match compute_min_out(request.amount_in, request.slippage_bps) {
            Ok(min_out) => min_out,
            Err(error) => {
                return fail(error);
            },
        };
        let deadline = match deadline_from_reading(reading, DEFAULT_HORIZON_SECS) {
            Ok(deadline) => deadline,
            Err(error) => {
                return fail(error);
            },
        };
        match request.variant {
            SwapVariant::NativeToToken => submit(
                self.swap_eth_to_token(path, request.amount_in, min_out, deadline),
            ),
            SwapVariant::TokenToNative => (
                SwapState::AmountsComputed { request, path, min_out, deadline, nonce: None },
                SwapAction::FetchNonce,
            ),
            SwapVariant::TokenToToken => submit(
                self.swap_token_to_token(path, request.amount_in, min_out, deadline),
            ),
        }
    }

    /// What [`TradeExecutor::execute_swap`] returns when the clock reads
    /// `reading`: the request is taken from `Idle` and, if it is valid, on
    /// through the reading of the clock.
    pub open spec fn execute_swap_spec(&self, request: SwapRequest, reading: Option<u64>) -> (
        SwapState,
        SwapAction,
    ) {
        let requested = self.step_spec(SwapState::Idle, SwapEvent::Requested(request));
        if requested.1 is ReadClock {
            self.step_spec(requested.0, SwapEvent::ClockRead(reading))
        } else {
            requested
        }
    }

    /// Starts a swap and takes it as far as it goes without the chain:
    /// validation, route, minimum output, and a deadline five minutes from
    /// the system clock's time. What is returned is the state reached and the
    /// first action that needs the chain, or the failure. The driver carries
    /// on with [`TradeExecutor::step`].
    ///
    /// `is_eth_input` and `is_eth_output` select the variant as
    /// [`SwapVariant::from_flags`] does.
    pub fn execute_swap(
        &self,
        token_in: Address,
        token_out: Address,
        amount_in: Amount,
        is_eth_input: bool,
        is_eth_output: bool,
        slippage_bps: Amount,
    ) -> (r: (SwapState, SwapAction))
        ensures
            exists|reading: Option<u64>|
                r == self.execute_swap_spec(
                    (SwapRequest {
                        variant: SwapVariant::spec_from_flags(is_eth_input, is_eth_output),
                        token_in,
                        token_out,
                        amount_in,
                        slippage_bps,
                    }),
                    reading,
                ),
            r.1 is FetchNonce || r.1 is Submit || r.1 is Finish,
    {
        let request = SwapRequest {
            variant: SwapVariant::from_flags(is_eth_input, is_eth_output),
            token_in,
            token_out,
            amount_in,
            slippage_bps,
        };
        let requested = self.step(SwapState::Idle, SwapEvent::Requested(request));
        match requested.1 {
            SwapAction::ReadClock => {
                let reading = read_unix_time();
                let r = self.step(requested.0, SwapEvent::ClockRead(reading));
                assert(r == self.execute_swap_spec(request, reading));
                r
            },
            _ => {
                assert(requested == self.execute_swap_spec(request, None));
                requested
            },
        }
    }
}

/// The failed state for `error`, with the action that reports it.
fn fail(error: SwapError) -> (r: (SwapState, SwapAction))
    ensures
        r == failure(error),
{
    (SwapState::Failed { error }, SwapAction::Finish(Err(error)))
}

/// The submitted state for `call`, with the action that submits it.
fn submit(call: SwapCall) -> (r: (SwapState, SwapAction))
    ensures
        r == submission(call),
{
    (SwapState::Submitted { call }, SwapAction::Submit(call))
}

} // verus!
