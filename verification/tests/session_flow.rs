use ethbot::handler::Action;
use ethbot::handler::ChainError;
use ethbot::handler::Reply;
use ethbot::handler::balance_reply;
use ethbot::handler::gas_price_reply;
use ethbot::session::Inbound;
use ethbot::session::LoopDecision;
use ethbot::session::LoopState;
use ethbot::session::dispatch;
use ethbot::session::loop_step;

use web3::types::U256;

/// What the simulated blockchain collaborator answers.
struct FakeChain {
    gas: Result<U256, ()>,
    balance: Result<U256, ()>,
}

/// One loop cycle over a simulated transport: returns `None` when the loop
/// terminated, otherwise the (query id, optional reply) it posted.
fn run_cycle(state: &mut LoopState, update: Inbound, chain: &FakeChain) -> Option<(String, Option<Reply>)> {
    let (next, decision) = loop_step(*state, &update);
    *state = next;
    match decision {
        LoopDecision::Stop => None,
        LoopDecision::Ignore => Some((String::new(), None)),
        LoopDecision::HandleQuery => {
            let (query_id, text) = match update {
                Inbound::InlineQuery { query_id, text } => (query_id, text),
                _ => unreachable!(),
            };
            let reply = match dispatch(&text) {
                Action::Answer(r) => Some(r),
                Action::FetchGasPrice => Some(gas_price_reply(
                    chain.gas.map(|v| v.to_string()).map_err(|_| ChainError),
                )),
                Action::FetchBalance { address: _, raw } => balance_reply(
                    &raw,
                    chain.balance.map(|v| v.to_string()).map_err(|_| ChainError),
                ),
                Action::NoAnswer => None,
            };
            Some((query_id, reply))
        }
    }
}

fn query(id: &str, text: &str) -> Inbound {
    Inbound::InlineQuery {
        query_id: String::from(id),
        text: String::from(text),
    }
}

#[test]
fn end_to_end_gas_query() {
    let chain = FakeChain {
        gas: Ok(U256::from(21000000000u64)),
        balance: Err(()),
    };
    let mut state = LoopState::Listening;
    let out = run_cycle(&mut state, query("q1", "gas"), &chain).unwrap();
    assert_eq!(state, LoopState::Listening);
    assert_eq!(out.0, "q1");
    let reply = out.1.unwrap();
    assert!(reply.body.contains("21000000000"));
    assert_eq!(reply.body, "Current gas price of ethereum is 21000000000");
}

#[test]
fn end_to_end_balance_query() {
    let addr = "0x0000000000000000000000000000000000000000";
    let chain = FakeChain {
        gas: Err(()),
        balance: Ok(U256::zero()),
    };
    let mut state = LoopState::Listening;
    let out = run_cycle(&mut state, query("q2", &format!("balance {}", addr)), &chain).unwrap();
    let reply = out.1.unwrap();
    assert!(reply.body.contains(addr));
    assert!(reply.body.contains('0'));
    assert_eq!(reply.body, format!("Balance of account {} is 0", addr));
    assert_eq!(reply.id, format!("balance {}", addr));
}

#[test]
fn end_to_end_empty_query() {
    let chain = FakeChain { gas: Err(()), balance: Err(()) };
    let mut state = LoopState::Listening;
    let out = run_cycle(&mut state, query("q3", ""), &chain).unwrap();
    let reply = out.1.unwrap();
    assert_eq!(reply.title, "Command usage");
}

#[test]
fn stream_error_terminates_the_loop() {
    let (next, decision) = loop_step(LoopState::Listening, &Inbound::StreamError);
    assert_eq!(next, LoopState::Terminated);
    assert_eq!(decision, LoopDecision::Stop);
}

#[test]
fn terminated_state_absorbs_every_update() {
    let (next, decision) = loop_step(LoopState::Terminated, &query("q", "gas"));
    assert_eq!(next, LoopState::Terminated);
    assert_eq!(decision, LoopDecision::Stop);
    let (next, decision) = loop_step(LoopState::Terminated, &Inbound::OtherUpdate);
    assert_eq!(next, LoopState::Terminated);
    assert_eq!(decision, LoopDecision::Stop);
}

#[test]
fn other_updates_are_ignored() {
    let (next, decision) = loop_step(LoopState::Listening, &Inbound::OtherUpdate);
    assert_eq!(next, LoopState::Listening);
    assert_eq!(decision, LoopDecision::Ignore);
}

#[test]
fn answers_come_back_in_query_order() {
    let chain = FakeChain {
        gas: Ok(U256::from(7u64)),
        balance: Ok(U256::from(5u64)),
    };
    let updates = vec![
        query("q1", "gas"),
        query("q2", ""),
        query("q3", "balance 0x0000000000000000000000000000000000000001"),
        query("q4", "foo"),
        query("q5", "gas"),
    ];
    let mut state = LoopState::Listening;
    let mut outbound: Vec<(String, Option<Reply>)> = Vec::new();
    for u in updates {
        outbound.push(run_cycle(&mut state, u, &chain).unwrap());
    }
    assert_eq!(outbound.len(), 5);
    let ids: Vec<&str> = outbound.iter().map(|(id, _)| id.as_str()).collect();
    assert_eq!(ids, vec!["q1", "q2", "q3", "q4", "q5"]);
    assert_eq!(
        outbound[0].1.as_ref().unwrap().title,
        "Gas Price is 7"
    );
    assert_eq!(outbound[1].1.as_ref().unwrap().title, "Command usage");
    assert_eq!(
        outbound[2].1.as_ref().unwrap().title,
        "Balance of account 0x0000000000000000000000000000000000000001 is 5"
    );
    assert!(outbound[3].1.is_none());
    assert_eq!(
        outbound[4].1.as_ref().unwrap().title,
        "Gas Price is 7"
    );
}
