//! Decision logic of a single decentralized-exchange token swap: slippage
//! bounds, route selection, deadlines, gas-price escalation, and the state
//! machine that sequences a submission.

pub mod address;
pub mod amount;
pub mod call;
pub mod config;
pub mod deadline;
pub mod error;
pub mod gas;
pub mod path;
pub mod price_feed;
pub mod run;
pub mod slippage;
pub mod text;
pub mod trade;
