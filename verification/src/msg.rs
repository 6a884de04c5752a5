//! The contract's message model: the commands a caller can ask for, the
//! funds that ride along with a call, and the outcome the host reports for a
//! dispatched sub-call.

use vstd::prelude::*;

verus! {

/// One fund unit: an amount of a single denomination.
#[derive(Clone, Debug, PartialEq, Eq)]
pub struct Coin {
    pub denom: String,
    pub amount: u128,
}

/// Instantiation takes no parameters.
#[derive(Debug, PartialEq, Eq)]
pub struct InstantiateMsg {}

/// A command: one dispatchable operation together with its parameters.
///
/// A command is immutable once built; the chaining engine moves it into its
/// single dispatch and never retains it afterwards.
#[derive(Debug, PartialEq, Eq)]
pub enum ExecuteMsg {
    /// Send all attached funds to an address.
    Transfer { address: String },
    /// Send one fund unit over a cross-chain channel.
    IbcTransfer { channel_id: String, address: String },
    /// Swap the attached fund unit through a pool.
    Swap { pool_id: u64, token_out_denom: String, token_out_min_amount: String },
    /// Mint an asset on a target contract.
    PurchaseNFT { owner: String, contract_addr: String, token_id: String, token_uri: String },
    /// A nested chain of commands against its own target contract.
    ContractHop { contract_addr: String, commands: Vec<ExecuteMsg> },
    /// A zero-payload cross-chain signal.
    Increment { channel: String },
}

/// The outcome the host reports for a dispatched sub-call.
#[derive(Clone, Debug, PartialEq, Eq)]
pub enum AckOutcome {
    /// The dispatched call ran to completion.
    Success,
    /// The dispatched call failed; `error` is the host's description.
    Failure { error: String },
}

} // verus!
