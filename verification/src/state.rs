//! The durable record of a chain in progress. It is the only place execution
//! position lives: no in-memory continuation survives across the host's
//! asynchronous boundary.

use vstd::prelude::*;
use crate::msg::ExecuteMsg;

verus! {

/// The persisted remainder of a chain.
///
/// `remaining` holds exactly the commands not yet dispatched, in the caller's
/// order; the engine pops from the back. `target` is the validated address
/// every command of the chain is dispatched to. At most one chain exists at a
/// time: starting a new chain overwrites this record.
#[derive(Debug, PartialEq, Eq)]
pub struct PendingChain {
    pub remaining: Vec<ExecuteMsg>,
    pub target: String,
}

} // verus!
