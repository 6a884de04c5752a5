//! Call descriptors: the outbound calls an operation asks the host to make.
//! The host executes them after the operation returns; a `Dispatch` is
//! additionally marked for a single acknowledgement callback.

use vstd::prelude::*;
use crate::msg::{Coin, ExecuteMsg};

verus! {

/// A command wrapped for a chain's target contract, carrying the funds to
/// attach and marked with the correlation token under which the host must
/// report its outcome.
#[derive(Debug, PartialEq, Eq)]
pub struct Dispatch {
    pub contract_addr: String,
    pub command: ExecuteMsg,
    pub funds: Vec<Coin>,
    pub reply_token: u64,
}

/// A plain funds transfer to an address.
#[derive(Clone, Debug, PartialEq, Eq)]
pub struct BankSend {
    pub to_address: String,
    pub amount: Vec<Coin>,
}

/// A single fund unit sent over a cross-chain channel, expiring at
/// `timeout_nanos` (nanoseconds of host time).
#[derive(Clone, Debug, PartialEq, Eq)]
pub struct IbcTransferPacket {
    pub channel_id: String,
    pub to_address: String,
    pub amount: Coin,
    pub timeout_nanos: u64,
}

/// A swap of `token_in` through one pool, demanding at least
/// `token_out_min_amount` of `token_out_denom`.
#[derive(Clone, Debug, PartialEq, Eq)]
pub struct SwapExactIn {
    pub sender: String,
    pub pool_id: u64,
    pub token_out_denom: String,
    pub token_out_min_amount: String,
    pub token_in: Coin,
}

/// A mint call against a target contract, forwarding the attached funds.
#[derive(Clone, Debug, PartialEq, Eq)]
pub struct NftMint {
    pub contract_addr: String,
    pub owner: String,
    pub token_id: String,
    pub token_uri: String,
    pub funds: Vec<Coin>,
}

/// A zero-payload cross-chain signal, expiring at `timeout_nanos`.
#[derive(Clone, Debug, PartialEq, Eq)]
pub struct IbcSignal {
    pub channel_id: String,
    pub timeout_nanos: u64,
}

} // verus!
