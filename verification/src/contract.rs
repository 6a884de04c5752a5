//! The chaining engine and the single-shot operations.
//!
//! A chain is driven by two functions. `contract_hop` starts it: the last
//! listed command is wrapped and dispatched at once, the rest are handed back
//! as the `PendingChain` to persist. `hop_reply` resumes it: on a successful
//! acknowledgement it pops the next command from the persisted stack and
//! wraps it with freshly queried funds; an empty stack ends the chain. The
//! persisted stack is the only record of execution position.

use vstd::prelude::*;
use crate::dispatch::{BankSend, Dispatch, IbcSignal, IbcTransferPacket, NftMint, SwapExactIn};
use crate::error::ContractError;
use crate::msg::{AckOutcome, Coin, ExecuteMsg};
use crate::state::PendingChain;

verus! {

/// The reserved correlation token. Every chained dispatch is marked with it,
/// and only acknowledgements carrying it reach the resume engine. A single
/// constant suffices because at most one chain is in flight at a time.
pub const HOP_REPLY_TOKEN: u64 = 1;

/// Cross-chain transfer packets live one hour (in seconds).
pub const PACKET_LIFETIME: u64 = 60 * 60;

/// Cross-chain signal packets live five minutes (in seconds).
pub const SIGNAL_LIFETIME: u64 = 300;

/// Host timestamps count nanoseconds.
pub const NANOS_PER_SECOND: u64 = 1_000_000_000;

/// What starting a chain produces: the record to persist and the first
/// dispatch, if any.
#[derive(Debug, PartialEq, Eq)]
pub struct HopStep {
    pub chain: PendingChain,
    pub dispatch: Option<Dispatch>,
}

/// The sequence of commands a chain whose stack holds `remaining` will still
/// dispatch, in dispatch order: the stack is popped from the back, so the
/// last element comes first.
pub open spec fn chain_trace(remaining: Seq<ExecuteMsg>) -> Seq<ExecuteMsg>
    decreases remaining.len(),
{
    if remaining.len() == 0 {
        Seq::<ExecuteMsg>::empty()
    } else {
        seq![remaining.last()] + chain_trace(remaining.drop_last())
    }
}

/// The commands one engine step dispatched: none or exactly one.
pub open spec fn dispatch_trace(d: Option<Dispatch>) -> Seq<ExecuteMsg> {
    match d {
        Some(d) => seq![d.command],
        None => Seq::<ExecuteMsg>::empty(),
    }
}

/// The dispatch encoder: wrap `command` for `contract_addr`, attach `funds`,
/// and mark the call for a single acknowledgement under the reserved token.
/// The initial dispatch and every resumed dispatch share it, so the two
/// paths cannot drift apart.
pub fn encode_dispatch(command: ExecuteMsg, contract_addr: String, funds: Vec<Coin>) -> (d: Dispatch)
    ensures
        d == (Dispatch { contract_addr, command, funds, reply_token: HOP_REPLY_TOKEN }),
{
    Dispatch { contract_addr, command, funds, reply_token: HOP_REPLY_TOKEN }
}

/// Start a chain against `validated_target`, overwriting any prior one.
///
/// `validated_target` is the target address as the host's validator returned
/// it, `None` where validation failed. With a valid target, the last command
/// of `commands` is dispatched with all attached `funds`, and the rest are
/// returned as the chain to persist; an empty `commands` dispatches nothing
/// and leaves the persisted stack empty.
pub fn contract_hop(validated_target: Option<String>, commands: Vec<ExecuteMsg>, funds: Vec<Coin>)
    -> (r: Result<HopStep, ContractError>)
    ensures
        validated_target is None <==> r == Err::<HopStep, ContractError>(ContractError::Unauthorized),
        validated_target matches Some(target) ==> r matches Ok(step) && {
            &&& step.chain.target == target
            &&& commands@.len() == 0 ==> step.chain.remaining@ == commands@ && step.dispatch is None
            &&& commands@.len() > 0 ==> {
                &&& step.chain.remaining@ == commands@.drop_last()
                &&& step.dispatch matches Some(d) && d == (Dispatch {
                    contract_addr: target,
                    command: commands@.last(),
                    funds,
                    reply_token: HOP_REPLY_TOKEN,
                })
            }
            &&& dispatch_trace(step.dispatch) + chain_trace(step.chain.remaining@)
                =~= chain_trace(commands@)
        },
{
    let target = match validated_target {
        Option::Some(t) => t,
        Option::None => {
            return Err(ContractError::Unauthorized);
        },
    };
    let mut remaining = commands;
    let dispatch = match remaining.pop() {
        Option::Some(command) => Option::Some(encode_dispatch(command, target.clone(), funds)),
        Option::None => Option::None,
    };
    Ok(HopStep { chain: PendingChain { remaining, target }, dispatch })
}

/// Resume a chain (the acknowledgement handler).
///
/// `reply_token` is the correlation token the host delivered the outcome
/// under; anything but the reserved token is rejected as `Unauthorized`. A
/// reported failure is propagated as `UpstreamFailure` and the stack is left
/// untouched, so the unexecuted remainder stays readable. On success the
/// next command is popped and wrapped for the chain's target with the
/// freshly queried `funds`; an empty stack means the chain is complete and
/// nothing more is dispatched.
pub fn hop_reply(chain: &mut PendingChain, reply_token: u64, outcome: AckOutcome, funds: Vec<Coin>)
    -> (r: Result<Option<Dispatch>, ContractError>)
    ensures
        r is Err <==> (reply_token != HOP_REPLY_TOKEN || outcome is Failure),
        r is Err ==> *final(chain) == *old(chain),
        reply_token != HOP_REPLY_TOKEN ==> r == Err::<Option<Dispatch>, ContractError>(
            ContractError::Unauthorized,
        ),
        outcome matches AckOutcome::Failure { error } ==> reply_token == HOP_REPLY_TOKEN ==> r
            == Err::<Option<Dispatch>, ContractError>(ContractError::UpstreamFailure {
            message: error,
        }),
        (reply_token == HOP_REPLY_TOKEN && outcome is Success) ==> {
            &&& final(chain).target == old(chain).target
            &&& old(chain).remaining@.len() == 0 ==> r == Ok::<Option<Dispatch>, ContractError>(
                Option::None,
            ) && final(chain).remaining@ == old(chain).remaining@
            &&& old(chain).remaining@.len() > 0 ==> {
                &&& final(chain).remaining@ == old(chain).remaining@.drop_last()
                &&& r matches Ok(Some(d)) && d == (Dispatch {
                    contract_addr: old(chain).target,
                    command: old(chain).remaining@.last(),
                    funds,
                    reply_token: HOP_REPLY_TOKEN,
                })
            }
            &&& r matches Ok(d) && dispatch_trace(d) + chain_trace(final(chain).remaining@)
                =~= chain_trace(old(chain).remaining@)
        },
{
    if reply_token != HOP_REPLY_TOKEN {
        return Err(ContractError::Unauthorized);
    }
    match outcome {
        AckOutcome::Failure { error } => {
            return Err(ContractError::UpstreamFailure { message: error });
        },
        AckOutcome::Success => {},
    }
    let dispatch = match chain.remaining.pop() {
        Option::Some(command) => Option::Some(
            encode_dispatch(command, chain.target.clone(), funds),
        ),
        Option::None => Option::None,
    };
    Ok(dispatch)
}

/// Law: a chain begun with `commands` dispatches every command exactly once,
/// and the k-th dispatch is `commands[commands.len() - 1 - k]`: the dispatch
/// order is the reverse of the listed order. Only where a sequence is its
/// own reverse (a single command, for instance) does the dispatch order
/// coincide with the listed order.
///
/// `chain_trace(commands)` is the full dispatch sequence of such a chain:
/// `contract_hop` and `hop_reply` each ensure that the commands they
/// dispatch, followed by the trace of the stack they leave behind, equal the
/// trace of the stack they started from, and the trace of the empty stack is
/// empty.
pub proof fn lemma_chain_dispatch_order(commands: Seq<ExecuteMsg>)
    ensures
        chain_trace(commands).len() == commands.len(),
        chain_trace(commands) =~= commands.reverse(),
        forall|k: int|
            0 <= k < commands.len() ==> chain_trace(commands)[k] == commands[commands.len() - 1
                - k],
        commands =~= commands.reverse() ==> chain_trace(commands) =~= commands,
    decreases commands.len(),
{
    if commands.len() == 0 {
    } else {
        lemma_chain_dispatch_order(commands.drop_last());
        assert forall|k: int| 0 <= k < commands.len() implies chain_trace(commands)[k]
            == commands[commands.len() - 1 - k] by {
            if k > 0 {
                assert(chain_trace(commands)[k] == chain_trace(commands.drop_last())[k - 1]);
                assert(commands.drop_last()[commands.len() - 1 - k] == commands[commands.len() - 1
                    - k]);
            }
        }
    }
}

/// Send all attached funds to `validated_to`: the destination address as the
/// host's validator returned it, `None` where validation failed. No funds
/// are required; an empty `funds` yields a zero-amount transfer.
pub fn execute_transfer(validated_to: Option<String>, funds: Vec<Coin>)
    -> (r: Result<BankSend, ContractError>)
    ensures
        validated_to is None <==> r == Err::<BankSend, ContractError>(ContractError::Unauthorized),
        validated_to matches Some(a) ==> r == Ok::<BankSend, ContractError>(BankSend {
            to_address: a,
            amount: funds,
        }),
{
    match validated_to {
        Option::Some(to_address) => Ok(BankSend { to_address, amount: funds }),
        Option::None => Err(ContractError::Unauthorized),
    }
}

/// Send one attached fund unit over `channel_id` to `addr`, expiring one
/// packet lifetime after `now_nanos` (the current host time). The last
/// attached fund unit is the one sent; with none attached the operation
/// fails with `MissingFunds`.
pub fn execute_ibc_transfer(channel_id: String, addr: String, funds: Vec<Coin>, now_nanos: u64)
    -> (r: Result<IbcTransferPacket, ContractError>)
    requires
        now_nanos + PACKET_LIFETIME * NANOS_PER_SECOND <= u64::MAX,
    ensures
        funds@.len() == 0 <==> r == Err::<IbcTransferPacket, ContractError>(
            ContractError::MissingFunds,
        ),
        funds@.len() > 0 ==> (r matches Ok(p) && {
            &&& p.channel_id == channel_id
            &&& p.to_address == addr
            &&& p.amount == funds@.last()
            &&& p.timeout_nanos == now_nanos + PACKET_LIFETIME * NANOS_PER_SECOND
        }),
{
    let mut funds = funds;
    let amount = match funds.pop() {
        Option::Some(coin) => coin,
        Option::None => {
            return Err(ContractError::MissingFunds);
        },
    };
    let timeout_nanos = now_nanos + PACKET_LIFETIME * NANOS_PER_SECOND;
    Ok(IbcTransferPacket { channel_id, to_address: addr, amount, timeout_nanos })
}

/// Swap the last attached fund unit through `pool_id`, asking for at least
/// `token_out_min_amount` of `token_out_denom`; `self_address` is the
/// swapping contract's own address. With no funds attached the operation
/// fails with `MissingFunds`.
pub fn execute_swap(
    self_address: String,
    funds: Vec<Coin>,
    pool_id: u64,
    token_out_denom: String,
    token_out_min_amount: String,
) -> (r: Result<SwapExactIn, ContractError>)
    ensures
        funds@.len() == 0 <==> r == Err::<SwapExactIn, ContractError>(ContractError::MissingFunds),
        funds@.len() > 0 ==> (r matches Ok(s) && {
            &&& s.sender == self_address
            &&& s.pool_id == pool_id
            &&& s.token_out_denom == token_out_denom
            &&& s.token_out_min_amount == token_out_min_amount
            &&& s.token_in == funds@.last()
        }),
{
    let mut funds = funds;
    let token_in = match funds.pop() {
        Option::Some(coin) => coin,
        Option::None => {
            return Err(ContractError::MissingFunds);
        },
    };
    Ok(SwapExactIn { sender: self_address, pool_id, token_out_denom, token_out_min_amount, token_in })
}

/// Build a mint call for `contract_addr`: `token_id` with `token_uri` is
/// minted to `owner`, and all attached `funds` are forwarded.
#[allow(non_snake_case)]
pub fn purchaseNft(
    funds: Vec<Coin>,
    contract_addr: String,
    token_id: String,
    token_uri: String,
    owner: String,
) -> (m: NftMint)
    ensures
        m == (NftMint { contract_addr, owner, token_id, token_uri, funds }),
{
    NftMint { contract_addr, owner, token_id, token_uri, funds }
}

/// Build the zero-payload signal for `channel`, expiring one signal lifetime
/// after `now_nanos` (the current host time).
pub fn execute_increment(channel: String, now_nanos: u64) -> (s: IbcSignal)
    requires
        now_nanos + SIGNAL_LIFETIME * NANOS_PER_SECOND <= u64::MAX,
    ensures
        s.channel_id == channel,
        s.timeout_nanos == now_nanos + SIGNAL_LIFETIME * NANOS_PER_SECOND,
{
    let timeout_nanos = now_nanos + SIGNAL_LIFETIME * NANOS_PER_SECOND;
    IbcSignal { channel_id: channel, timeout_nanos }
}

} // verus!
