use blazarbit_protocol::contract::{contract_hop, hop_reply, HOP_REPLY_TOKEN};
use blazarbit_protocol::error::ContractError;
use blazarbit_protocol::msg::{AckOutcome, Coin, ExecuteMsg};
use blazarbit_protocol::state::PendingChain;

fn coin(denom: &str, amount: u128) -> Coin {
    Coin { denom: denom.to_string(), amount }
}

fn transfer_cmd() -> ExecuteMsg {
    ExecuteMsg::Transfer { address: "addr_a".to_string() }
}

fn swap_cmd() -> ExecuteMsg {
    ExecuteMsg::Swap {
        pool_id: 1,
        token_out_denom: "uosmo".to_string(),
        token_out_min_amount: "100".to_string(),
    }
}

fn mint_cmd() -> ExecuteMsg {
    ExecuteMsg::PurchaseNFT {
        owner: "owner".to_string(),
        contract_addr: "nft_market".to_string(),
        token_id: "7".to_string(),
        token_uri: "ipfs://asset".to_string(),
    }
}

#[test]
fn chain_walks_commands_in_reverse_listed_order() {
    // Scenario: three commands; the engine dispatches the last listed first
    // and drives the rest through successive acknowledgements.
    let commands = vec![transfer_cmd(), swap_cmd(), mint_cmd()];
    let funds = vec![coin("uatom", 50)];

    let step = contract_hop(Some("target_t".to_string()), commands, funds).unwrap();
    let mut chain = step.chain;
    let first = step.dispatch.expect("a first dispatch is owed");
    assert_eq!(first.command, mint_cmd());
    assert_eq!(first.contract_addr, "target_t".to_string());
    assert_eq!(first.funds, vec![coin("uatom", 50)]);
    assert_eq!(first.reply_token, HOP_REPLY_TOKEN);
    assert_eq!(chain.remaining, vec![transfer_cmd(), swap_cmd()]);
    assert_eq!(chain.target, "target_t".to_string());

    let second = hop_reply(&mut chain, HOP_REPLY_TOKEN, AckOutcome::Success, vec![coin("uosmo", 80)])
        .unwrap()
        .expect("a second dispatch is owed");
    assert_eq!(second.command, swap_cmd());
    assert_eq!(second.contract_addr, "target_t".to_string());
    assert_eq!(second.funds, vec![coin("uosmo", 80)]);
    assert_eq!(chain.remaining, vec![transfer_cmd()]);

    let third = hop_reply(&mut chain, HOP_REPLY_TOKEN, AckOutcome::Success, vec![])
        .unwrap()
        .expect("a third dispatch is owed");
    assert_eq!(third.command, transfer_cmd());
    assert_eq!(chain.remaining, Vec::<ExecuteMsg>::new());

    let done = hop_reply(&mut chain, HOP_REPLY_TOKEN, AckOutcome::Success, vec![]).unwrap();
    assert_eq!(done, None);
    assert_eq!(chain.remaining, Vec::<ExecuteMsg>::new());
}

#[test]
fn empty_chain_dispatches_nothing() {
    let step = contract_hop(Some("target_t".to_string()), vec![], vec![coin("uatom", 5)]).unwrap();
    assert_eq!(step.dispatch, None);
    assert_eq!(step.chain.remaining, Vec::<ExecuteMsg>::new());
    assert_eq!(step.chain.target, "target_t".to_string());
}

#[test]
fn spurious_ack_after_completion_dispatches_nothing() {
    let mut chain = PendingChain { remaining: vec![], target: "target_t".to_string() };
    let r = hop_reply(&mut chain, HOP_REPLY_TOKEN, AckOutcome::Success, vec![coin("uatom", 9)]);
    assert_eq!(r, Ok(None));
    assert_eq!(chain.remaining, Vec::<ExecuteMsg>::new());

    // and it stays that way however often the ack repeats
    let r = hop_reply(&mut chain, HOP_REPLY_TOKEN, AckOutcome::Success, vec![]);
    assert_eq!(r, Ok(None));
    assert_eq!(chain.remaining, Vec::<ExecuteMsg>::new());
}

#[test]
fn foreign_token_is_rejected_whatever_is_pending() {
    let mut empty = PendingChain { remaining: vec![], target: "target_t".to_string() };
    let r = hop_reply(&mut empty, 2, AckOutcome::Success, vec![]);
    assert_eq!(r, Err(ContractError::Unauthorized));

    let mut busy = PendingChain {
        remaining: vec![transfer_cmd(), swap_cmd()],
        target: "target_t".to_string(),
    };
    let r = hop_reply(&mut busy, 0, AckOutcome::Failure { error: "boom".to_string() }, vec![]);
    assert_eq!(r, Err(ContractError::Unauthorized));
    assert_eq!(busy.remaining, vec![transfer_cmd(), swap_cmd()]);
}

#[test]
fn upstream_failure_halts_chain_and_keeps_remainder() {
    let mut chain = PendingChain {
        remaining: vec![transfer_cmd(), swap_cmd()],
        target: "target_t".to_string(),
    };
    let r = hop_reply(
        &mut chain,
        HOP_REPLY_TOKEN,
        AckOutcome::Failure { error: "out of gas".to_string() },
        vec![coin("uatom", 3)],
    );
    assert_eq!(r, Err(ContractError::UpstreamFailure { message: "out of gas".to_string() }));
    assert_eq!(chain.remaining, vec![transfer_cmd(), swap_cmd()]);
    assert_eq!(chain.target, "target_t".to_string());
}

#[test]
fn invalid_target_is_unauthorized() {
    let r = contract_hop(None, vec![transfer_cmd()], vec![]);
    assert_eq!(r, Err(ContractError::Unauthorized));
}

#[test]
fn single_command_chain_dispatches_it_at_once() {
    let step = contract_hop(Some("t".to_string()), vec![swap_cmd()], vec![]).unwrap();
    let d = step.dispatch.expect("the one command is dispatched");
    assert_eq!(d.command, swap_cmd());
    assert_eq!(d.funds, Vec::<Coin>::new());
    assert_eq!(step.chain.remaining, Vec::<ExecuteMsg>::new());
}

#[test]
fn nested_hop_command_is_dispatched_like_any_other() {
    let nested = ExecuteMsg::ContractHop {
        contract_addr: "inner_target".to_string(),
        commands: vec![transfer_cmd()],
    };
    let step = contract_hop(Some("outer".to_string()), vec![nested], vec![]).unwrap();
    let d = step.dispatch.unwrap();
    assert_eq!(
        d.command,
        ExecuteMsg::ContractHop {
            contract_addr: "inner_target".to_string(),
            commands: vec![transfer_cmd()],
        }
    );
    assert_eq!(d.contract_addr, "outer".to_string());
}
