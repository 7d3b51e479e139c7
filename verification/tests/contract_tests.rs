//! Tests of the contract surface driven through the message dispatchers,
//! mirroring the driver that exercises initiation, acceptance, execution and
//! cancellation end to end on one instance.

use simple_token_agreement::contract::{execute, instantiate, query};
use simple_token_agreement::msg::{
    AgreementResponse, Attribute, Coin, ExecuteMsg, InstantiateMsg, MessageInfo, QueryAnswer,
    QueryMsg, TokenInfo,
};
use simple_token_agreement::state::{AgreementStatus, ContractState};
use simple_token_agreement::ContractError;

fn coin(amount: u128, denom: &str) -> Coin {
    Coin { denom: denom.to_string(), amount }
}

fn coins(amount: u128, denom: &str) -> Vec<Coin> {
    vec![coin(amount, denom)]
}

fn message_info(sender: &str, funds: Vec<Coin>) -> MessageInfo {
    MessageInfo { sender: sender.to_string(), funds }
}

fn attr(key: &str, value: &str) -> Attribute {
    Attribute { key: key.to_string(), value: value.to_string() }
}

fn get_agreement(state: &ContractState, id: u64) -> Result<AgreementResponse, ContractError> {
    match query(state, QueryMsg::GetAgreement { id }) {
        Ok(QueryAnswer::Agreement(resp)) => Ok(resp),
        Ok(_) => panic!("Unexpected answer"),
        Err(e) => Err(e),
    }
}

#[test]
fn proper_initialization() {
    let msg = InstantiateMsg {};
    let (state, res) = instantiate(msg);
    assert_eq!(0, res.messages.len());

    let res = query(&state, QueryMsg::GetAgreement { id: 1 });
    assert!(res.is_err());
}

#[test]
fn contract_initiate_and_accept_agreement() {
    let (mut state, _res) = instantiate(InstantiateMsg {});

    let initiator_token = TokenInfo { address: "tokenA".to_string(), amount: 1000u128 };
    let counterparty_token = TokenInfo { address: "tokenB".to_string(), amount: 2000u128 };
    let counterparty = "counterparty".to_string();

    let msg = ExecuteMsg::InitiateAgreement {
        initiator_token: initiator_token.clone(),
        counterparty_token: counterparty_token.clone(),
        counterparty: counterparty.clone(),
    };
    let info = message_info("initiator", coins(1000, "tokenA"));
    let res = execute(&mut state, &vec![], info, msg).unwrap();

    assert_eq!(res.attributes[0], attr("method", "initiate_agreement"));
    assert_eq!(res.attributes[1], attr("id", "1"));

    let msg = ExecuteMsg::AcceptAgreement { id: 1 };
    let info = message_info("counterparty", coins(2000, "tokenB"));
    let res = execute(&mut state, &vec![], info, msg).unwrap();

    assert_eq!(res.attributes[0], attr("method", "accept_agreement"));
    assert_eq!(res.attributes[1], attr("id", "1"));

    let value = get_agreement(&state, 1).unwrap();
    assert_eq!(value.agreement.id, 1);
    assert_eq!(value.agreement.initiator, "initiator");
    assert_eq!(value.agreement.counterparty, "counterparty");
    assert_eq!(value.agreement.initiator_token, initiator_token);
    assert_eq!(value.agreement.counterparty_token, counterparty_token);
    assert_eq!(value.agreement.status, AgreementStatus::Accepted);
}

#[test]
fn contract_insufficient_funds_initiate_agreement() {
    let (mut state, _res) = instantiate(InstantiateMsg {});

    let initiator_token = TokenInfo { address: "tokenA".to_string(), amount: 1000u128 };
    let counterparty_token = TokenInfo { address: "tokenB".to_string(), amount: 2000u128 };
    let counterparty = "counterparty".to_string();

    let msg = ExecuteMsg::InitiateAgreement {
        initiator_token,
        counterparty_token,
        counterparty,
    };
    let info = message_info("initiator", coins(500, "tokenA")); // Insufficient funds
    let res = execute(&mut state, &vec![], info, msg);

    assert!(res.is_err());
    match res.err().unwrap() {
        ContractError::IncorrectFundsAmount { expected, found } => {
            assert_eq!(expected, "1000");
            assert_eq!(found, "500");
        }
        _ => panic!("Unexpected error"),
    }
}

#[test]
fn contract_execute_agreement_success() {
    let (mut state, _res) = instantiate(InstantiateMsg {});

    // The host holds both deposits for the contract account.
    let contract_balances = vec![coin(1000, "tokenA"), coin(2000, "tokenB")];

    let initiator_token = TokenInfo { address: "tokenA".to_string(), amount: 1000u128 };
    let counterparty_token = TokenInfo { address: "tokenB".to_string(), amount: 2000u128 };
    let counterparty = "counterparty".to_string();

    let initiate_msg = ExecuteMsg::InitiateAgreement {
        initiator_token,
        counterparty_token,
        counterparty,
    };
    let initiate_info = message_info("initiator", coins(1000, "tokenA"));
    let _res = execute(&mut state, &contract_balances, initiate_info, initiate_msg).unwrap();

    let accept_msg = ExecuteMsg::AcceptAgreement { id: 1 };
    let accept_info = message_info("counterparty", coins(2000, "tokenB"));
    let _res = execute(&mut state, &contract_balances, accept_info, accept_msg).unwrap();

    let execute_msg = ExecuteMsg::ExecuteAgreement { id: 1 };
    let execute_info = message_info("initiator", vec![]);
    let res = execute(&mut state, &contract_balances, execute_info, execute_msg).unwrap();

    // The settlement crosses the two deposits.
    assert_eq!(res.messages.len(), 2);

    let agreement_response = get_agreement(&state, 1).unwrap();
    assert_eq!(agreement_response.agreement.status, AgreementStatus::Executed);
}

#[test]
fn contract_cancel_agreement() {
    let (mut state, _res) = instantiate(InstantiateMsg {});

    let initiator_token = TokenInfo { address: "tokenA".to_string(), amount: 1000u128 };
    let counterparty_token = TokenInfo { address: "tokenB".to_string(), amount: 2000u128 };
    let counterparty = "counterparty".to_string();

    let msg = ExecuteMsg::InitiateAgreement {
        initiator_token,
        counterparty_token,
        counterparty,
    };
    let info = message_info("initiator", coins(1000, "tokenA"));
    let res = execute(&mut state, &vec![], info, msg).unwrap();

    assert_eq!(res.attributes[0], attr("method", "initiate_agreement"));
    assert_eq!(res.attributes[1], attr("id", "1"));

    let msg = ExecuteMsg::CancelAgreement { id: 1 };
    let info = message_info("initiator", coins(1000, "tokenA"));
    let res = execute(&mut state, &coins(1000, "tokenA"), info, msg).unwrap();

    assert_eq!(res.attributes[0], attr("method", "cancel_agreement"));
    assert_eq!(res.attributes[1], attr("id", "1"));

    // The record stays, marked canceled; only the initiator's confirmed
    // deposit is refunded.
    let value = get_agreement(&state, 1).unwrap();
    assert_eq!(value.agreement.status, AgreementStatus::Canceled);
    assert_eq!(res.messages.len(), 1);
}

#[test]
fn contract_query_agreements_by_initiator() {
    let (mut state, _res) = instantiate(InstantiateMsg {});

    let initiator_token = TokenInfo { address: "tokenA".to_string(), amount: 1000u128 };
    let counterparty_token = TokenInfo { address: "tokenB".to_string(), amount: 2000u128 };

    let msg = ExecuteMsg::InitiateAgreement {
        initiator_token: initiator_token.clone(),
        counterparty_token: counterparty_token.clone(),
        counterparty: "counterparty".to_string(),
    };
    let info = message_info("initiator", coins(1000, "tokenA"));
    let _res = execute(&mut state, &vec![], info, msg).unwrap();

    let msg = ExecuteMsg::InitiateAgreement {
        initiator_token,
        counterparty_token,
        counterparty: "counterparty2".to_string(),
    };
    let info = message_info("initiator", coins(1000, "tokenA"));
    let _res = execute(&mut state, &vec![], info, msg).unwrap();

    let res = query(
        &state,
        QueryMsg::GetAgreementsByInitiator {
            initiator: "initiator".to_string(),
            page: 0,
            page_size: 10,
        },
    )
    .unwrap();
    match res {
        QueryAnswer::Agreements(value) => assert_eq!(value.agreements.len(), 2),
        _ => panic!("Unexpected answer"),
    }
}

#[test]
fn contract_query_agreements_by_counterparty() {
    let (mut state, _res) = instantiate(InstantiateMsg {});

    let initiator_token = TokenInfo { address: "tokenA".to_string(), amount: 1000u128 };
    let counterparty_token = TokenInfo { address: "tokenB".to_string(), amount: 2000u128 };

    let msg = ExecuteMsg::InitiateAgreement {
        initiator_token: initiator_token.clone(),
        counterparty_token: counterparty_token.clone(),
        counterparty: "counterparty".to_string(),
    };
    let info = message_info("initiator", coins(1000, "tokenA"));
    let _res = execute(&mut state, &vec![], info, msg).unwrap();

    let msg = ExecuteMsg::InitiateAgreement {
        initiator_token,
        counterparty_token,
        counterparty: "counterparty2".to_string(),
    };
    let info = message_info("initiator", coins(1000, "tokenA"));
    let _res = execute(&mut state, &vec![], info, msg).unwrap();

    let res = query(
        &state,
        QueryMsg::GetAgreementsByCounterparty {
            counterparty: "counterparty".to_string(),
            page: 0,
            page_size: 10,
        },
    )
    .unwrap();
    match res {
        QueryAnswer::Agreements(value) => assert_eq!(value.agreements.len(), 1),
        _ => panic!("Unexpected answer"),
    }
}
