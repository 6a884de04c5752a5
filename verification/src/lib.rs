//! A contract that executes an ordered chain of commands against a target
//! contract, one command at a time, each gated on the host's asynchronous
//! acknowledgement of the previous dispatch.
//!
//! The chaining engine keeps its whole continuation as durable data: a stack
//! of not-yet-dispatched commands plus the chain's target address. Starting a
//! chain dispatches the last listed command and persists the rest; every
//! successful acknowledgement pops and dispatches the next one until the
//! stack is empty.

pub mod contract;
pub mod dispatch;
pub mod error;
pub mod msg;
pub mod state;

pub use crate::error::ContractError;
