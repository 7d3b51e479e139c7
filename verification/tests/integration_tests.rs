//! End-to-end tests: a tiny host harness keeps a bank ledger, moves attached
//! funds to the contract account atomically with each call, and applies the
//! transfer instructions the contract emits.

use simple_token_agreement::contract::{execute, instantiate};
use simple_token_agreement::msg::{Coin, ExecuteMsg, InstantiateMsg, MessageInfo, Response, TokenInfo};
use simple_token_agreement::state::ContractState;
use simple_token_agreement::ContractError;

const INITIATOR: &str = "initiator";
const COUNTERPARTY: &str = "counterparty";
const CONTRACT: &str = "contract";
const TOKEN_A: &str = "TokenA";
const TOKEN_B: &str = "TokenB";

type Bank = Vec<(String, String, u128)>;

fn balance(bank: &Bank, account: &str, denom: &str) -> u128 {
    bank.iter()
        .find(|(a, d, _)| a == account && d == denom)
        .map(|(_, _, amount)| *amount)
        .unwrap_or(0)
}

fn set_balance(bank: &mut Bank, account: &str, denom: &str, amount: u128) {
    for entry in bank.iter_mut() {
        if entry.0 == account && entry.1 == denom {
            entry.2 = amount;
            return;
        }
    }
    bank.push((account.to_string(), denom.to_string(), amount));
}

fn transfer(bank: &mut Bank, from: &str, to: &str, denom: &str, amount: u128) {
    let from_balance = balance(bank, from, denom);
    assert!(from_balance >= amount, "overdraw of {} by {}", denom, from);
    set_balance(bank, from, denom, from_balance - amount);
    let to_balance = balance(bank, to, denom);
    set_balance(bank, to, denom, to_balance + amount);
}

fn contract_balances(bank: &Bank) -> Vec<Coin> {
    bank.iter()
        .filter(|(a, _, _)| a == CONTRACT)
        .map(|(_, d, amount)| Coin { denom: d.clone(), amount: *amount })
        .collect()
}

/// One host call: attach the funds, run the command, apply the emitted
/// transfers.  A failed call leaves the ledger untouched.
fn host_execute(
    state: &mut ContractState,
    bank: &mut Bank,
    sender: &str,
    funds: Vec<(u128, &str)>,
    msg: ExecuteMsg,
) -> Result<Response, ContractError> {
    let mut attached: Vec<Coin> = Vec::new();
    for (amount, denom) in &funds {
        transfer(bank, sender, CONTRACT, denom, *amount);
        attached.push(Coin { denom: denom.to_string(), amount: *amount });
    }
    let balances = contract_balances(bank);
    let info = MessageInfo { sender: sender.to_string(), funds: attached };
    match execute(state, &balances, info, msg) {
        Ok(res) => {
            for m in &res.messages {
                transfer(bank, CONTRACT, &m.to_address, &m.denom, m.amount);
            }
            Ok(res)
        }
        Err(e) => {
            // The host applies a call's effects all or nothing.
            for (amount, denom) in &funds {
                transfer(bank, CONTRACT, sender, denom, *amount);
            }
            Err(e)
        }
    }
}

fn proper_instantiate() -> (ContractState, Bank) {
    let (state, _res) = instantiate(InstantiateMsg {});
    let mut bank: Bank = Vec::new();
    set_balance(&mut bank, INITIATOR, TOKEN_A, 10000);
    set_balance(&mut bank, COUNTERPARTY, TOKEN_B, 10000);
    (state, bank)
}

fn initiate_msg() -> ExecuteMsg {
    ExecuteMsg::InitiateAgreement {
        initiator_token: TokenInfo { address: TOKEN_A.to_string(), amount: 1000u128 },
        counterparty_token: TokenInfo { address: TOKEN_B.to_string(), amount: 2000u128 },
        counterparty: COUNTERPARTY.to_string(),
    }
}

#[test]
fn integration_tests_initiate_agreement() {
    let (mut state, mut bank) = proper_instantiate();

    host_execute(&mut state, &mut bank, INITIATOR, vec![(1000, TOKEN_A)], initiate_msg())
        .unwrap();

    assert_eq!(balance(&bank, INITIATOR, TOKEN_A), 9000);
    assert_eq!(balance(&bank, CONTRACT, TOKEN_A), 1000);
}

#[test]
fn accept_agreement() {
    let (mut state, mut bank) = proper_instantiate();

    host_execute(&mut state, &mut bank, INITIATOR, vec![(1000, TOKEN_A)], initiate_msg())
        .unwrap();

    host_execute(
        &mut state,
        &mut bank,
        COUNTERPARTY,
        vec![(2000, TOKEN_B)],
        ExecuteMsg::AcceptAgreement { id: 1 },
    )
    .unwrap();

    assert_eq!(balance(&bank, INITIATOR, TOKEN_A), 9000);
    assert_eq!(balance(&bank, COUNTERPARTY, TOKEN_B), 8000);
    assert_eq!(balance(&bank, CONTRACT, TOKEN_A), 1000);
    assert_eq!(balance(&bank, CONTRACT, TOKEN_B), 2000);
}

#[test]
fn execute_agreement() {
    let (mut state, mut bank) = proper_instantiate();

    host_execute(&mut state, &mut bank, INITIATOR, vec![(1000, TOKEN_A)], initiate_msg())
        .unwrap();

    host_execute(
        &mut state,
        &mut bank,
        COUNTERPARTY,
        vec![(2000, TOKEN_B)],
        ExecuteMsg::AcceptAgreement { id: 1 },
    )
    .unwrap();

    host_execute(
        &mut state,
        &mut bank,
        COUNTERPARTY,
        vec![],
        ExecuteMsg::ExecuteAgreement { id: 1 },
    )
    .unwrap();

    assert_eq!(balance(&bank, INITIATOR, TOKEN_A), 9000);
    assert_eq!(balance(&bank, INITIATOR, TOKEN_B), 2000);
    assert_eq!(balance(&bank, COUNTERPARTY, TOKEN_B), 8000);
    assert_eq!(balance(&bank, COUNTERPARTY, TOKEN_A), 1000);
    assert_eq!(balance(&bank, CONTRACT, TOKEN_A), 0);
    assert_eq!(balance(&bank, CONTRACT, TOKEN_B), 0);
}

#[test]
fn cancel_accepted_agreement() {
    let (mut state, mut bank) = proper_instantiate();

    host_execute(&mut state, &mut bank, INITIATOR, vec![(1000, TOKEN_A)], initiate_msg())
        .unwrap();

    host_execute(
        &mut state,
        &mut bank,
        COUNTERPARTY,
        vec![(2000, TOKEN_B)],
        ExecuteMsg::AcceptAgreement { id: 1 },
    )
    .unwrap();

    host_execute(
        &mut state,
        &mut bank,
        COUNTERPARTY,
        vec![],
        ExecuteMsg::CancelAgreement { id: 1 },
    )
    .unwrap();

    assert_eq!(balance(&bank, INITIATOR, TOKEN_A), 10000);
    assert_eq!(balance(&bank, COUNTERPARTY, TOKEN_B), 10000);
    assert_eq!(balance(&bank, CONTRACT, TOKEN_A), 0);
    assert_eq!(balance(&bank, CONTRACT, TOKEN_B), 0);
}

#[test]
fn cancel_initiated_agreement() {
    let (mut state, mut bank) = proper_instantiate();

    host_execute(&mut state, &mut bank, INITIATOR, vec![(1000, TOKEN_A)], initiate_msg())
        .unwrap();

    host_execute(
        &mut state,
        &mut bank,
        COUNTERPARTY,
        vec![],
        ExecuteMsg::CancelAgreement { id: 1 },
    )
    .unwrap();

    assert_eq!(balance(&bank, INITIATOR, TOKEN_A), 10000);
    assert_eq!(balance(&bank, COUNTERPARTY, TOKEN_B), 10000);
    assert_eq!(balance(&bank, CONTRACT, TOKEN_A), 0);
    assert_eq!(balance(&bank, CONTRACT, TOKEN_B), 0);
}
