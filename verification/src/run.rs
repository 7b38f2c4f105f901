//! Runs of the executor over whole sequences of events, and what holds of
//! every run: a swap only moves forward, asks for the nonce once, submits
//! once, and never submits a sale of tokens for native currency before the
//! nonce is known.

use crate::amount::{lemma_amount_of_view, lemma_view_amount_of};
use crate::call::SwapCall;
use crate::deadline::DEFAULT_HORIZON_SECS;
use crate::error::SwapError;
use crate::path::{resolve_spec, SwapPath};
use crate::slippage::{lemma_min_out_bounded, min_out, min_out_spec};
use crate::trade::{SwapAction, SwapEvent, SwapRequest, SwapState, TradeExecutor};
use vstd::prelude::*;

verus! {

impl SwapState {
    /// Whether the swap is over.
    pub open spec fn terminal(&self) -> bool {
        self is Confirmed || self is Failed
    }

    /// How far a swap has come; no step ever lowers it.
    pub open spec fn progress(&self) -> nat {
        match self {
            SwapState::Idle => 0,
            SwapState::PathResolved { .. } => 1,
            SwapState::AmountsComputed { nonce: None, .. } => 2,
            SwapState::AmountsComputed { nonce: Some(_), .. } => 3,
            SwapState::Submitted { .. } => 4,
            SwapState::Confirmed { .. } => 5,
            SwapState::Failed { .. } => 5,
        }
    }

    /// What holds of every state a swap can be in under `executor`: the
    /// request it carries is valid, its route is the one the variant calls
    /// for, only a sale for native currency waits for the chain, the minimum
    /// output is the one the slippage formula gives, and the deadline lies
    /// the default horizon after some reading of the clock.
    pub open spec fn consistent(&self, executor: TradeExecutor) -> bool {
        match self {
            SwapState::PathResolved { request, path } => {
                &&& request.valid()
                &&& *path == resolve_spec(
                    request.variant,
                    request.token_in,
                    request.token_out,
                    executor.bridge_asset,
                )
            },
            SwapState::AmountsComputed { request, path, min_out, deadline, nonce } => {
                &&& request.valid()
                &&& request.variant is TokenToNative
                &&& *path == resolve_spec(
                    request.variant,
                    request.token_in,
                    request.token_out,
                    executor.bridge_asset,
                )
                &&& min_out_spec(request.amount_in, request.slippage_bps) == Ok::<_, SwapError>(*min_out)
                &&& DEFAULT_HORIZON_SECS <= deadline@ <= u64::MAX + DEFAULT_HORIZON_SECS
            },
            SwapState::Submitted { call } => call.well_formed(executor),
            _ => true,
        }
    }
}

impl SwapCall {
    /// What holds of every call an executor hands out: it pays the
    /// executor's recipient, a native side of the route is the bridge asset,
    /// the minimum output is not above the amount sold, the deadline lies
    /// the default horizon after some reading of the clock, and the value
    /// attached to a trade of tokens is the amount sold.
    pub open spec fn well_formed(&self, executor: TradeExecutor) -> bool {
        match self {
            SwapCall::NativeForToken { min_out, path, recipient, deadline, value } => {
                &&& *recipient == executor.recipient
                &&& path.source == executor.bridge_asset
                &&& 0 < value@
                &&& min_out@ <= value@
                &&& DEFAULT_HORIZON_SECS <= deadline@ <= u64::MAX + DEFAULT_HORIZON_SECS
            },
            SwapCall::TokenForNative { amount_in, min_out, path, recipient, deadline, .. } => {
                &&& *recipient == executor.recipient
                &&& path.target == executor.bridge_asset
                &&& 0 < amount_in@
                &&& min_out@ <= amount_in@
                &&& DEFAULT_HORIZON_SECS <= deadline@ <= u64::MAX + DEFAULT_HORIZON_SECS
            },
            SwapCall::TokenForToken { amount_in, min_out, path, recipient, deadline, value } => {
                &&& *recipient == executor.recipient
                &&& 0 < amount_in@
                &&& min_out@ <= amount_in@
                &&& value == amount_in
                &&& DEFAULT_HORIZON_SECS <= deadline@ <= u64::MAX + DEFAULT_HORIZON_SECS
            },
        }
    }
}

impl TradeExecutor {
    /// The state reached from `start` once all of `events` have been fed to
    /// the executor, in order.
    pub open spec fn state_after(&self, start: SwapState, events: Seq<SwapEvent>) -> SwapState
        decreases events.len(),
    {
        if events.len() == 0 {
            start
        } else {
            self.step_spec(self.state_after(start, events.drop_last()), events.last()).0
        }
    }

    /// The action that answers the event at `index` in a run from `start`.
    pub open spec fn action_at(&self, start: SwapState, events: Seq<SwapEvent>, index: int) -> SwapAction
        recommends
            0 <= index < events.len(),
    {
        self.step_spec(self.state_after(start, events.take(index)), events[index]).1
    }
}

/// A finished swap stays as it is, whatever is reported to it, and keeps
/// answering with its outcome.
pub proof fn lemma_terminal_absorbs(executor: TradeExecutor, state: SwapState, event: SwapEvent)
    requires
        state.terminal(),
    ensures
        executor.step_spec(state, event).0 == state,
        executor.step_spec(state, event).1 is Finish,
{
}

/// A fault reported to a swap that is not over fails it with that error.
pub proof fn lemma_fault_fails(
    executor: TradeExecutor,
    state: SwapState,
    error: SwapError,
)
    requires
        !state.terminal(),
    ensures
        executor.step_spec(state, SwapEvent::Fault(error)) == (
            SwapState::Failed { error },
            SwapAction::Finish(Err(error)),
        ),
{
}

/// One step never moves a swap backwards. The nonce is asked for only on the
/// way from `PathResolved` to `AmountsComputed`, the gas price only once the
/// nonce is in, and a call is submitted only on the way into `Submitted`, a
/// sale for native currency only once nonce and gas price are in.
pub proof fn lemma_step_advances(executor: TradeExecutor, state: SwapState, event: SwapEvent)
    ensures
        ({
            let (next, action) = executor.step_spec(state, event);
            &&& state.progress() <= next.progress()
            &&& action is ReadClock ==> state.progress() == 0 && next.progress() == 1
            &&& action is FetchNonce ==> state.progress() == 1 && next.progress() == 2
            &&& action is FetchGasPrice ==> state.progress() == 2 && next.progress() == 3
            &&& action matches SwapAction::Submit(call) ==> {
                &&& state.progress() < 4
                &&& next == SwapState::Submitted { call }
                &&& call is TokenForNative <==> state.progress() == 3
                &&& call is TokenForNative ==> (state matches SwapState::AmountsComputed {
                    nonce: Some(fetched),
                    ..
                } && call->TokenForNative_nonce == fetched)
            }
            &&& action is Ignore ==> next == state
            &&& action matches SwapAction::Finish(outcome) ==> match outcome {
                Ok(transaction) => next == SwapState::Confirmed { transaction },
                Err(error) => next == SwapState::Failed { error },
            }
        }),
{
}

/// Every step keeps a consistent state consistent.
pub proof fn lemma_step_keeps_consistent(executor: TradeExecutor, state: SwapState, event: SwapEvent)
    requires
        state.consistent(executor),
    ensures
        executor.step_spec(state, event).0.consistent(executor),
        executor.step_spec(state, event).1 matches SwapAction::Submit(call) ==> call.well_formed(
            executor,
        ),
{
    match state {
        SwapState::PathResolved { request, path } => {
            lemma_amount_of_view(request.amount_in);
            lemma_min_out_bounded(request.amount_in@, request.slippage_bps@);
            lemma_view_amount_of(min_out(request.amount_in@, request.slippage_bps@));
            if let SwapEvent::ClockRead(Some(now)) = event {
                lemma_view_amount_of((now + DEFAULT_HORIZON_SECS) as nat);
            }
        },
        SwapState::AmountsComputed { request, .. } => {
            lemma_amount_of_view(request.amount_in);
            lemma_min_out_bounded(request.amount_in@, request.slippage_bps@);
            lemma_view_amount_of(min_out(request.amount_in@, request.slippage_bps@));
        },
        _ => {},
    }
}

/// With the clock at `now`, a swap leaves `PathResolved` with a deadline
/// that lies the default horizon after `now`, and so strictly after it.
pub proof fn lemma_deadline_after_now(
    executor: TradeExecutor,
    request: SwapRequest,
    path: SwapPath,
    now: u64,
)
    ensures
        ({
            let (next, action) = executor.on_clock(request, path, Some(now));
            &&& next matches SwapState::AmountsComputed { deadline, .. } ==> (deadline@ == now
                + DEFAULT_HORIZON_SECS && deadline@ > now)
            &&& action matches SwapAction::Submit(SwapCall::NativeForToken { deadline, .. })
                ==> (deadline@ == now + DEFAULT_HORIZON_SECS && deadline@ > now)
            &&& action matches SwapAction::Submit(SwapCall::TokenForToken { deadline, .. })
                ==> (deadline@ == now + DEFAULT_HORIZON_SECS && deadline@ > now)
        }),
{
    lemma_view_amount_of((now + DEFAULT_HORIZON_SECS) as nat);
}

/// The state before an event of a run leads, by that event, to the state
/// after it.
proof fn lemma_state_after_take(
    executor: TradeExecutor,
    start: SwapState,
    events: Seq<SwapEvent>,
    index: int,
)
    requires
        0 <= index < events.len(),
    ensures
        executor.state_after(start, events.take(index + 1)) == executor.step_spec(
            executor.state_after(start, events.take(index)),
            events[index],
        ).0,
{
    let prefix = events.take(index + 1);
    assert(prefix.drop_last() =~= events.take(index));
    assert(prefix.last() == events[index]);
}

/// Along a run, a swap never moves backwards.
pub proof fn lemma_run_advances(
    executor: TradeExecutor,
    start: SwapState,
    events: Seq<SwapEvent>,
    earlier: int,
    later: int,
)
    requires
        0 <= earlier <= later <= events.len(),
    ensures
        executor.state_after(start, events.take(earlier)).progress() <= executor.state_after(
            start,
            events.take(later),
        ).progress(),
    decreases later - earlier,
{
    if earlier < later {
        lemma_run_advances(executor, start, events, earlier, later - 1);
        lemma_state_after_take(executor, start, events, later - 1);
        lemma_step_advances(
            executor,
            executor.state_after(start, events.take(later - 1)),
            events[later - 1],
        );
    }
}

/// Every state of a run from a consistent state is consistent, and every
/// call that the run hands out is well formed. `Idle` is consistent, so this
/// holds of every run of a fresh swap.
pub proof fn lemma_run_consistent(
    executor: TradeExecutor,
    start: SwapState,
    events: Seq<SwapEvent>,
    index: int,
)
    requires
        start.consistent(executor),
        0 <= index <= events.len(),
    ensures
        executor.state_after(start, events.take(index)).consistent(executor),
        index < events.len() ==> (executor.action_at(start, events, index) matches SwapAction::Submit(
            call,
        ) ==> call.well_formed(executor)),
    decreases index,
{
    if index > 0 {
        lemma_run_consistent(executor, start, events, index - 1);
        lemma_state_after_take(executor, start, events, index - 1);
        lemma_step_keeps_consistent(
            executor,
            executor.state_after(start, events.take(index - 1)),
            events[index - 1],
        );
    } else {
        assert(events.take(0).len() == 0);
    }
    if index < events.len() {
        lemma_step_keeps_consistent(
            executor,
            executor.state_after(start, events.take(index)),
            events[index],
        );
    }
}

/// In one run, the nonce is asked for at most once.
pub proof fn lemma_nonce_fetched_once(
    executor: TradeExecutor,
    start: SwapState,
    events: Seq<SwapEvent>,
    first: int,
    second: int,
)
    requires
        0 <= first < second < events.len(),
        executor.action_at(start, events, first) is FetchNonce,
    ensures
        !(executor.action_at(start, events, second) is FetchNonce),
{
    lemma_step_advances(executor, executor.state_after(start, events.take(first)), events[first]);
    lemma_state_after_take(executor, start, events, first);
    lemma_run_advances(executor, start, events, first + 1, second);
    lemma_step_advances(executor, executor.state_after(start, events.take(second)), events[second]);
}

/// In one run, at most one call is submitted: nothing is retried.
pub proof fn lemma_submitted_once(
    executor: TradeExecutor,
    start: SwapState,
    events: Seq<SwapEvent>,
    first: int,
    second: int,
)
    requires
        0 <= first < second < events.len(),
        executor.action_at(start, events, first) is Submit,
    ensures
        !(executor.action_at(start, events, second) is Submit),
{
    lemma_step_advances(executor, executor.state_after(start, events.take(first)), events[first]);
    lemma_state_after_take(executor, start, events, first);
    lemma_run_advances(executor, start, events, first + 1, second);
    lemma_step_advances(executor, executor.state_after(start, events.take(second)), events[second]);
}

/// In a run of a fresh swap, a state that waits for the chain was entered by
/// asking for the nonce.
proof fn lemma_waiting_asked_for_nonce(
    executor: TradeExecutor,
    events: Seq<SwapEvent>,
    index: int,
)
    requires
        0 <= index <= events.len(),
        executor.state_after(SwapState::Idle, events.take(index)) is AmountsComputed,
    ensures
        exists|asked: int|
            0 <= asked < index && #[trigger] executor.action_at(SwapState::Idle, events, asked)
                is FetchNonce,
    decreases index,
{
    if index == 0 {
        assert(events.take(0).len() == 0);
    } else {
        let before = executor.state_after(SwapState::Idle, events.take(index - 1));
        lemma_state_after_take(executor, SwapState::Idle, events, index - 1);
        lemma_step_advances(executor, before, events[index - 1]);
        if before is AmountsComputed {
            lemma_waiting_asked_for_nonce(executor, events, index - 1);
        } else {
            assert(executor.action_at(SwapState::Idle, events, index - 1) is FetchNonce);
        }
    }
}

/// In a run of a fresh swap, a sale of tokens for native currency is
/// submitted only after the nonce was asked for, and carries the nonce that
/// was reported.
pub proof fn lemma_nonce_before_submission(
    executor: TradeExecutor,
    events: Seq<SwapEvent>,
    submitted: int,
)
    requires
        0 <= submitted < events.len(),
        executor.action_at(SwapState::Idle, events, submitted) matches SwapAction::Submit(call)
            && call is TokenForNative,
    ensures
        exists|asked: int|
            0 <= asked < submitted && #[trigger] executor.action_at(SwapState::Idle, events, asked)
                is FetchNonce,
{
    lemma_step_advances(
        executor,
        executor.state_after(SwapState::Idle, events.take(submitted)),
        events[submitted],
    );
    lemma_waiting_asked_for_nonce(executor, events, submitted);
}

} // verus!
