//! The typed failures of a swap.

use vstd::prelude::*;

verus! {

/// Why a swap, or one of its computations, did not go through.
#[derive(Clone, Copy, Debug, PartialEq, Eq, Hash)]
pub enum SwapError {
    /// The amount to swap is zero, or the slippage tolerance is above 100%.
    InvalidInput,
    /// An intermediate product does not fit in 256 bits.
    ArithmeticOverflow,
    /// The current time could not be read, or lies before the Unix epoch.
    ClockError,
    /// The chain client failed while reading from the chain.
    ChainCommunicationError,
    /// The router contract rejected the call.
    ContractRevert,
    /// The call could not be signed or broadcast.
    SubmissionError,
}

} // verus!
