use vstd::prelude::*;
use vstd::string::StringExecFns;

use crate::error::{res_view, ContractError, ErrorV};
use crate::msg::{
    token_str, Attribute, AttributeV, Coin, CoinV, ExecuteMsg, ExecuteMsgV, InstantiateMsg,
    MessageInfo, MessageInfoV, QueryAnswer, QueryAnswerV, QueryMsg, QueryMsgV, Response, ResponseV,
    TokenInfo, TokenInfoV, TransferMsg, TransferV,
};
use crate::numerals::{dec_str, u64_to_string};
use crate::state::{
    filtered_agreements, lemma_count_status_at_least_one, lemma_count_status_le_len,
    lemma_count_status_partition, lemma_count_status_push, lemma_count_status_update,
    query_agreement, query_agreements_by_counterparty, query_agreements_by_initiator,
    query_agreements_by_status, spec_get_agreement, status_label, Agreement, AgreementFilter,
    AgreementStatus, AgreementV, ContractState, StateV,
};
use crate::utils::{
    assert_agreement_has_status, assert_contract_has_sufficient_funds,
    assert_funds_match_token_amount, assert_sender_authorized,
    assert_sender_is_different_from_counterparty, assert_sender_matches_counterparty,
    authorized_label, balance_of, spec_check_funds, status_list_label,
};

verus! {

// ---------------------------------------------------------------------------
// Response metadata
// ---------------------------------------------------------------------------
/// The metadata a successful mutating operation reports: the method name and
/// the full resulting record.
pub open spec fn spec_attributes(method: Seq<char>, a: AgreementV) -> Seq<AttributeV> {
    seq![
        AttributeV { key: "method"@, value: method },
        AttributeV { key: "id"@, value: dec_str(a.id as nat) },
        AttributeV { key: "status"@, value: status_label(a.status) },
        AttributeV { key: "initiator"@, value: a.initiator },
        AttributeV { key: "counterparty"@, value: a.counterparty },
        AttributeV { key: "initiator_token"@, value: token_str(a.initiator_token) },
        AttributeV { key: "counterparty_token"@, value: token_str(a.counterparty_token) },
    ]
}

/// Builds the metadata of a successful operation over `a`.
fn build_attributes(method: &str, a: &Agreement) -> (r: Vec<Attribute>)
    ensures
        r.deep_view() == spec_attributes(method@, a@),
{
    let mut v: Vec<Attribute> = Vec::new();
    v.push(Attribute { key: String::from_str("method"), value: String::from_str(method) });
    v.push(Attribute { key: String::from_str("id"), value: u64_to_string(a.id) });
    v.push(Attribute { key: String::from_str("status"), value: a.status.label() });
    v.push(Attribute { key: String::from_str("initiator"), value: a.initiator.clone() });
    v.push(Attribute { key: String::from_str("counterparty"), value: a.counterparty.clone() });
    v.push(
        Attribute {
            key: String::from_str("initiator_token"),
            value: a.initiator_token.clone().into_string(),
        },
    );
    v.push(
        Attribute {
            key: String::from_str("counterparty_token"),
            value: a.counterparty_token.clone().into_string(),
        },
    );
    proof {
        assert(v.deep_view() =~= spec_attributes(method@, a@));
    }
    v
}

// ---------------------------------------------------------------------------
// Creation
// ---------------------------------------------------------------------------
/// Creates a fresh contract instance: no agreements, every counter zero.
pub fn instantiate(msg: InstantiateMsg) -> (r: (ContractState, Response))
    ensures
        r.0.wf(),
        r.0@.agreements == Seq::<AgreementV>::empty(),
        r.0@.total == 0,
        r.0@.initiated == 0 && r.0@.accepted == 0 && r.0@.executed == 0 && r.0@.canceled == 0,
        r.1@.messages == Seq::<TransferV>::empty(),
        r.1@.attributes == seq![AttributeV { key: "method"@, value: "instantiate"@ }],
{
    let InstantiateMsg {  } = msg;
    let state = ContractState {
        agreements: Vec::new(),
        total_agreement_count: 0,
        initiated_agreement_count: 0,
        accepted_agreement_count: 0,
        executed_agreement_count: 0,
        canceled_agreement_count: 0,
    };
    let mut attributes: Vec<Attribute> = Vec::new();
    attributes.push(
        Attribute { key: String::from_str("method"), value: String::from_str("instantiate") },
    );
    let response = Response { messages: Vec::new(), attributes };
    proof {
        assert(state@.agreements =~= Seq::<AgreementV>::empty());
        assert(response@.messages =~= Seq::<TransferV>::empty());
        assert(response@.attributes =~= seq![
            AttributeV { key: "method"@, value: "instantiate"@ },
        ]);
    }
    (state, response)
}

// ---------------------------------------------------------------------------
// Initiation
// ---------------------------------------------------------------------------
/// What initiating an agreement does to the state: on success a fresh record
/// with the next sequence id, status initiated and the caller as initiator is
/// appended and the counters grow; on any precondition violation the state is
/// unchanged and the typed error names the violation.
pub open spec fn spec_initiate(
    s: StateV,
    info: MessageInfoV,
    initiator_token: TokenInfoV,
    counterparty_token: TokenInfoV,
    counterparty: Seq<char>,
) -> (StateV, Result<ResponseV, ErrorV>) {
    if info.sender == counterparty {
        (s, Err(ErrorV::InvalidCounterparty { initiator: info.sender, counterparty }))
    } else {
        match spec_check_funds(info.funds, initiator_token) {
            Some(e) => (s, Err(e)),
            None => {
                let a = AgreementV {
                    id: (s.total + 1) as u64,
                    initiator: info.sender,
                    initiator_token,
                    counterparty,
                    counterparty_token,
                    status: AgreementStatus::Initiated,
                };
                let s2 = StateV {
                    agreements: s.agreements.push(a),
                    total: (s.total + 1) as u64,
                    initiated: (s.initiated + 1) as u64,
                    ..s
                };
                (
                    s2,
                    Ok(
                        ResponseV {
                            messages: Seq::<TransferV>::empty(),
                            attributes: spec_attributes("initiate_agreement"@, a),
                        },
                    ),
                )
            },
        }
    }
}

/// Initiates a new agreement.  The attached funds must match the initiator's
/// token exactly, and the caller may not name itself as counterparty.  The
/// new record's id is the incremented sequence counter; no transfer is
/// emitted, as the deposit came attached to this very call.
pub fn try_initiate_agreement(
    state: &mut ContractState,
    info: MessageInfo,
    initiator_token: TokenInfo,
    counterparty_token: TokenInfo,
    counterparty: String,
) -> (r: Result<Response, ContractError>)
    requires
        old(state).wf(),
        old(state).total_agreement_count < u64::MAX,
    ensures
        final(state).wf(),
        (final(state)@, res_view(r)) == spec_initiate(
            old(state)@,
            info@,
            initiator_token@,
            counterparty_token@,
            counterparty@,
        ),
{
    if let Err(e) = assert_sender_is_different_from_counterparty(&info.sender, &counterparty) {
        return Err(e);
    }
    if let Err(e) = assert_funds_match_token_amount(&info.funds, &initiator_token) {
        return Err(e);
    }
    let id = state.total_agreement_count + 1;
    let agreement = Agreement {
        id,
        initiator: info.sender,
        initiator_token,
        counterparty,
        counterparty_token,
        status: AgreementStatus::Initiated,
    };
    let response = Response {
        messages: Vec::new(),
        attributes: build_attributes("initiate_agreement", &agreement),
    };
    proof {
        lemma_count_status_le_len(old(state)@.agreements, AgreementStatus::Initiated);
        lemma_count_status_push(old(state)@.agreements, agreement@, AgreementStatus::Initiated);
        lemma_count_status_push(old(state)@.agreements, agreement@, AgreementStatus::Accepted);
        lemma_count_status_push(old(state)@.agreements, agreement@, AgreementStatus::Executed);
        lemma_count_status_push(old(state)@.agreements, agreement@, AgreementStatus::Canceled);
    }
    let ghost a_view = agreement@;
    state.agreements.push(agreement);
    state.total_agreement_count = id;
    state.initiated_agreement_count = state.initiated_agreement_count + 1;
    proof {
        assert(state.agreements.deep_view() =~= old(state)@.agreements.push(a_view));
        assert(state@ =~= spec_initiate(
            old(state)@,
            info@,
            a_view.initiator_token,
            a_view.counterparty_token,
            a_view.counterparty,
        ).0);
        assert(response@.messages =~= Seq::<TransferV>::empty());
    }
    Ok(response)
}

// ---------------------------------------------------------------------------
// Acceptance
// ---------------------------------------------------------------------------
/// What accepting an agreement does to the state: only the named counterparty
/// may accept, the attached funds must match the counterparty's token, and
/// the record must still be in status initiated; on success the record moves
/// to accepted and the counters follow.
pub open spec fn spec_accept(s: StateV, info: MessageInfoV, id: u64) -> (StateV, Result<
    ResponseV,
    ErrorV,
>) {
    match spec_get_agreement(s, id) {
        Err(e) => (s, Err(e)),
        Ok(a) => {
            if info.sender != a.counterparty {
                (s, Err(ErrorV::Unauthorized { expected: a.counterparty, found: info.sender }))
            } else {
                match spec_check_funds(info.funds, a.counterparty_token) {
                    Some(e) => (s, Err(e)),
                    None => {
                        if a.status != AgreementStatus::Initiated {
                            (
                                s,
                                Err(
                                    ErrorV::InvalidAgreementStatus {
                                        expected: status_list_label(
                                            seq![AgreementStatus::Initiated],
                                        ),
                                        found: status_label(a.status),
                                    },
                                ),
                            )
                        } else {
                            let a2 = AgreementV { status: AgreementStatus::Accepted, ..a };
                            let s2 = StateV {
                                agreements: s.agreements.update(id - 1, a2),
                                initiated: (s.initiated - 1) as u64,
                                accepted: (s.accepted + 1) as u64,
                                ..s
                            };
                            (
                                s2,
                                Ok(
                                    ResponseV {
                                        messages: Seq::<TransferV>::empty(),
                                        attributes: spec_attributes("accept_agreement"@, a2),
                                    },
                                ),
                            )
                        }
                    },
                }
            }
        },
    }
}

/// Accepts an agreement as its counterparty, depositing the matching funds.
/// No transfer is emitted: the deposit came attached to this very call.
pub fn try_accept_agreement(state: &mut ContractState, info: MessageInfo, id: u64) -> (r: Result<
    Response,
    ContractError,
>)
    requires
        old(state).wf(),
    ensures
        final(state).wf(),
        (final(state)@, res_view(r)) == spec_accept(old(state)@, info@, id),
{
    if !(id >= 1 && id - 1 < state.agreements.len() as u64) {
        return Err(ContractError::NotFound { id });
    }
    let idx = (id - 1) as usize;
    if let Err(e) = assert_sender_matches_counterparty(
        &info.sender,
        &state.agreements[idx].counterparty,
    ) {
        return Err(e);
    }
    if let Err(e) = assert_funds_match_token_amount(
        &info.funds,
        &state.agreements[idx].counterparty_token,
    ) {
        return Err(e);
    }
    let allowed = [AgreementStatus::Initiated];
    proof {
        assert(allowed@ =~= seq![AgreementStatus::Initiated]);
    }
    if let Err(e) = assert_agreement_has_status(state.agreements[idx].status, &allowed) {
        return Err(e);
    }
    let mut agreement = state.agreements[idx].clone();
    agreement.status = AgreementStatus::Accepted;
    let response = Response {
        messages: Vec::new(),
        attributes: build_attributes("accept_agreement", &agreement),
    };
    proof {
        lemma_count_status_at_least_one(
            old(state)@.agreements,
            idx as int,
            AgreementStatus::Initiated,
        );
        lemma_count_status_partition(old(state)@.agreements);
        lemma_count_status_update(
            old(state)@.agreements,
            idx as int,
            agreement@,
            AgreementStatus::Initiated,
        );
        lemma_count_status_update(
            old(state)@.agreements,
            idx as int,
            agreement@,
            AgreementStatus::Accepted,
        );
        lemma_count_status_update(
            old(state)@.agreements,
            idx as int,
            agreement@,
            AgreementStatus::Executed,
        );
        lemma_count_status_update(
            old(state)@.agreements,
            idx as int,
            agreement@,
            AgreementStatus::Canceled,
        );
    }
    let ghost a_view = agreement@;
    state.agreements[idx] = agreement;
    state.initiated_agreement_count = state.initiated_agreement_count - 1;
    state.accepted_agreement_count = state.accepted_agreement_count + 1;
    proof {
        assert(state.agreements.deep_view() =~= old(state)@.agreements.update(
            idx as int,
            a_view,
        ));
        assert(state@ =~= spec_accept(old(state)@, info@, id).0);
        assert(response@.messages =~= Seq::<TransferV>::empty());
    }
    Ok(response)
}

// ---------------------------------------------------------------------------
// Execution
// ---------------------------------------------------------------------------
/// What executing an agreement does to the state: either party may settle an
/// accepted agreement, provided the contract's held balance covers both
/// deposits (the initiator's token is checked first).  On success two
/// transfers cross the deposits: the initiator's token goes to the
/// counterparty and the counterparty's token goes to the initiator, and the
/// record moves to executed.
pub open spec fn spec_execute_agreement(
    s: StateV,
    sender: Seq<char>,
    balances: Seq<CoinV>,
    id: u64,
) -> (StateV, Result<ResponseV, ErrorV>) {
    match spec_get_agreement(s, id) {
        Err(e) => (s, Err(e)),
        Ok(a) => {
            if sender != a.initiator && sender != a.counterparty {
                (
                    s,
                    Err(
                        ErrorV::Unauthorized {
                            expected: authorized_label(a.initiator, a.counterparty),
                            found: sender,
                        },
                    ),
                )
            } else if a.status != AgreementStatus::Accepted {
                (
                    s,
                    Err(
                        ErrorV::InvalidAgreementStatus {
                            expected: status_list_label(seq![AgreementStatus::Accepted]),
                            found: status_label(a.status),
                        },
                    ),
                )
            } else if balance_of(balances, a.initiator_token.address) < a.initiator_token.amount {
                (
                    s,
                    Err(
                        ErrorV::InsufficientContractFunds {
                            expected: dec_str(a.initiator_token.amount as nat),
                            found: dec_str(
                                balance_of(balances, a.initiator_token.address) as nat,
                            ),
                        },
                    ),
                )
            } else if balance_of(balances, a.counterparty_token.address)
                < a.counterparty_token.amount {
                (
                    s,
                    Err(
                        ErrorV::InsufficientContractFunds {
                            expected: dec_str(a.counterparty_token.amount as nat),
                            found: dec_str(
                                balance_of(balances, a.counterparty_token.address) as nat,
                            ),
                        },
                    ),
                )
            } else {
                let a2 = AgreementV { status: AgreementStatus::Executed, ..a };
                let s2 = StateV {
                    agreements: s.agreements.update(id - 1, a2),
                    accepted: (s.accepted - 1) as u64,
                    executed: (s.executed + 1) as u64,
                    ..s
                };
                (
                    s2,
                    Ok(
                        ResponseV {
                            messages: seq![
                                TransferV {
                                    to_address: a.counterparty,
                                    denom: a.initiator_token.address,
                                    amount: a.initiator_token.amount,
                                },
                                TransferV {
                                    to_address: a.initiator,
                                    denom: a.counterparty_token.address,
                                    amount: a.counterparty_token.amount,
                                },
                            ],
                            attributes: spec_attributes("execute_agreement"@, a2),
                        },
                    ),
                )
            }
        },
    }
}

/// Settles an accepted agreement: emits the two transfers that cross the
/// deposits and marks the record executed.  `balances` is the contract's
/// held balance listing as the host reports it at the time of the call.
pub fn try_execute_agreement(
    state: &mut ContractState,
    balances: &Vec<Coin>,
    info: MessageInfo,
    id: u64,
) -> (r: Result<Response, ContractError>)
    requires
        old(state).wf(),
    ensures
        final(state).wf(),
        (final(state)@, res_view(r)) == spec_execute_agreement(
            old(state)@,
            info@.sender,
            balances.deep_view(),
            id,
        ),
{
    if !(id >= 1 && id - 1 < state.agreements.len() as u64) {
        return Err(ContractError::NotFound { id });
    }
    let idx = (id - 1) as usize;
    if let Err(e) = assert_sender_authorized(
        &info.sender,
        &state.agreements[idx].initiator,
        &state.agreements[idx].counterparty,
    ) {
        return Err(e);
    }
    let allowed = [AgreementStatus::Accepted];
    proof {
        assert(allowed@ =~= seq![AgreementStatus::Accepted]);
    }
    if let Err(e) = assert_agreement_has_status(state.agreements[idx].status, &allowed) {
        return Err(e);
    }
    if let Err(e) = assert_contract_has_sufficient_funds(
        balances,
        &state.agreements[idx].initiator_token,
    ) {
        return Err(e);
    }
    if let Err(e) = assert_contract_has_sufficient_funds(
        balances,
        &state.agreements[idx].counterparty_token,
    ) {
        return Err(e);
    }
    let mut agreement = state.agreements[idx].clone();
    agreement.status = AgreementStatus::Executed;
    let mut messages: Vec<TransferMsg> = Vec::new();
    messages.push(
        TransferMsg {
            to_address: agreement.counterparty.clone(),
            denom: agreement.initiator_token.address.clone(),
            amount: agreement.initiator_token.amount,
        },
    );
    messages.push(
        TransferMsg {
            to_address: agreement.initiator.clone(),
            denom: agreement.counterparty_token.address.clone(),
            amount: agreement.counterparty_token.amount,
        },
    );
    let response = Response {
        messages,
        attributes: build_attributes("execute_agreement", &agreement),
    };
    proof {
        lemma_count_status_at_least_one(
            old(state)@.agreements,
            idx as int,
            AgreementStatus::Accepted,
        );
        lemma_count_status_partition(old(state)@.agreements);
        lemma_count_status_update(
            old(state)@.agreements,
            idx as int,
            agreement@,
            AgreementStatus::Initiated,
        );
        lemma_count_status_update(
            old(state)@.agreements,
            idx as int,
            agreement@,
            AgreementStatus::Accepted,
        );
        lemma_count_status_update(
            old(state)@.agreements,
            idx as int,
            agreement@,
            AgreementStatus::Executed,
        );
        lemma_count_status_update(
            old(state)@.agreements,
            idx as int,
            agreement@,
            AgreementStatus::Canceled,
        );
    }
    let ghost a_view = agreement@;
    state.agreements[idx] = agreement;
    state.accepted_agreement_count = state.accepted_agreement_count - 1;
    state.executed_agreement_count = state.executed_agreement_count + 1;
    proof {
        assert(state.agreements.deep_view() =~= old(state)@.agreements.update(
            idx as int,
            a_view,
        ));
        assert(state@ =~= spec_execute_agreement(
            old(state)@,
            info@.sender,
            balances.deep_view(),
            id,
        ).0);
        assert(response@.messages =~= spec_execute_agreement(
            old(state)@,
            info@.sender,
            balances.deep_view(),
            id,
        ).1->Ok_0.messages);
    }
    Ok(response)
}

// ---------------------------------------------------------------------------
// Cancellation
// ---------------------------------------------------------------------------
/// The refund instructions a cancellation emits: each side's deposit goes
/// back to that side, but only where the contract's held balance confirms the
/// deposit was made.  The check is intentionally best-effort, so that a
/// counterparty who never accepted gets no refund for a deposit that was
/// never made.
pub open spec fn spec_cancel_refunds(a: AgreementV, balances: Seq<CoinV>) -> Seq<TransferV> {
    let initiator_refund = if balance_of(balances, a.initiator_token.address)
        >= a.initiator_token.amount {
        seq![
            TransferV {
                to_address: a.initiator,
                denom: a.initiator_token.address,
                amount: a.initiator_token.amount,
            },
        ]
    } else {
        Seq::<TransferV>::empty()
    };
    let counterparty_refund = if balance_of(balances, a.counterparty_token.address)
        >= a.counterparty_token.amount {
        seq![
            TransferV {
                to_address: a.counterparty,
                denom: a.counterparty_token.address,
                amount: a.counterparty_token.amount,
            },
        ]
    } else {
        Seq::<TransferV>::empty()
    };
    initiator_refund + counterparty_refund
}

/// What canceling an agreement does to the state: either party may cancel a
/// record that is not yet settled (status initiated or accepted); the record
/// moves to canceled, the counters follow, and each confirmed deposit is
/// refunded to its owner.
pub open spec fn spec_cancel_agreement(
    s: StateV,
    sender: Seq<char>,
    balances: Seq<CoinV>,
    id: u64,
) -> (StateV, Result<ResponseV, ErrorV>) {
    match spec_get_agreement(s, id) {
        Err(e) => (s, Err(e)),
        Ok(a) => {
            if sender != a.initiator && sender != a.counterparty {
                (
                    s,
                    Err(
                        ErrorV::Unauthorized {
                            expected: authorized_label(a.initiator, a.counterparty),
                            found: sender,
                        },
                    ),
                )
            } else if a.status != AgreementStatus::Accepted && a.status
                != AgreementStatus::Initiated {
                (
                    s,
                    Err(
                        ErrorV::InvalidAgreementStatus {
                            expected: status_list_label(
                                seq![AgreementStatus::Accepted, AgreementStatus::Initiated],
                            ),
                            found: status_label(a.status),
                        },
                    ),
                )
            } else {
                let a2 = AgreementV { status: AgreementStatus::Canceled, ..a };
                let s2 = StateV {
                    agreements: s.agreements.update(id - 1, a2),
                    initiated: if a.status == AgreementStatus::Initiated {
                        (s.initiated - 1) as u64
                    } else {
                        s.initiated
                    },
                    accepted: if a.status == AgreementStatus::Accepted {
                        (s.accepted - 1) as u64
                    } else {
                        s.accepted
                    },
                    canceled: (s.canceled + 1) as u64,
                    ..s
                };
                (
                    s2,
                    Ok(
                        ResponseV {
                            messages: spec_cancel_refunds(a, balances),
                            attributes: spec_attributes("cancel_agreement"@, a2),
                        },
                    ),
                )
            }
        },
    }
}

/// Cancels an agreement that has not been settled, refunding each side whose
/// deposit the contract's held balance confirms.  `balances` is the
/// contract's held balance listing as the host reports it.
pub fn try_cancel_agreement(
    state: &mut ContractState,
    balances: &Vec<Coin>,
    info: MessageInfo,
    id: u64,
) -> (r: Result<Response, ContractError>)
    requires
        old(state).wf(),
    ensures
        final(state).wf(),
        (final(state)@, res_view(r)) == spec_cancel_agreement(
            old(state)@,
            info@.sender,
            balances.deep_view(),
            id,
        ),
{
    if !(id >= 1 && id - 1 < state.agreements.len() as u64) {
        return Err(ContractError::NotFound { id });
    }
    let idx = (id - 1) as usize;
    if let Err(e) = assert_sender_authorized(
        &info.sender,
        &state.agreements[idx].initiator,
        &state.agreements[idx].counterparty,
    ) {
        return Err(e);
    }
    let allowed = [AgreementStatus::Accepted, AgreementStatus::Initiated];
    proof {
        assert(allowed@ =~= seq![AgreementStatus::Accepted, AgreementStatus::Initiated]);
    }
    if let Err(e) = assert_agreement_has_status(state.agreements[idx].status, &allowed) {
        return Err(e);
    }
    let ghost old_status = state@.agreements[idx as int].status;
    let was_initiated = state.agreements[idx].status == AgreementStatus::Initiated;
    let mut agreement = state.agreements[idx].clone();
    let mut messages: Vec<TransferMsg> = Vec::new();
    if assert_contract_has_sufficient_funds(balances, &agreement.initiator_token).is_ok() {
        messages.push(
            TransferMsg {
                to_address: agreement.initiator.clone(),
                denom: agreement.initiator_token.address.clone(),
                amount: agreement.initiator_token.amount,
            },
        );
    }
    if assert_contract_has_sufficient_funds(balances, &agreement.counterparty_token).is_ok() {
        messages.push(
            TransferMsg {
                to_address: agreement.counterparty.clone(),
                denom: agreement.counterparty_token.address.clone(),
                amount: agreement.counterparty_token.amount,
            },
        );
    }
    proof {
        assert(messages.deep_view() =~= spec_cancel_refunds(
            old(state)@.agreements[idx as int],
            balances.deep_view(),
        ));
    }
    agreement.status = AgreementStatus::Canceled;
    let response = Response {
        messages,
        attributes: build_attributes("cancel_agreement", &agreement),
    };
    proof {
        lemma_count_status_at_least_one(old(state)@.agreements, idx as int, old_status);
        lemma_count_status_partition(old(state)@.agreements);
        lemma_count_status_update(
            old(state)@.agreements,
            idx as int,
            agreement@,
            AgreementStatus::Initiated,
        );
        lemma_count_status_update(
            old(state)@.agreements,
            idx as int,
            agreement@,
            AgreementStatus::Accepted,
        );
        lemma_count_status_update(
            old(state)@.agreements,
            idx as int,
            agreement@,
            AgreementStatus::Executed,
        );
        lemma_count_status_update(
            old(state)@.agreements,
            idx as int,
            agreement@,
            AgreementStatus::Canceled,
        );
    }
    let ghost a_view = agreement@;
    state.agreements[idx] = agreement;
    if was_initiated {
        state.initiated_agreement_count = state.initiated_agreement_count - 1;
    } else {
        state.accepted_agreement_count = state.accepted_agreement_count - 1;
    }
    state.canceled_agreement_count = state.canceled_agreement_count + 1;
    proof {
        assert(state.agreements.deep_view() =~= old(state)@.agreements.update(
            idx as int,
            a_view,
        ));
        assert(state@ =~= spec_cancel_agreement(
            old(state)@,
            info@.sender,
            balances.deep_view(),
            id,
        ).0);
    }
    Ok(response)
}

// ---------------------------------------------------------------------------
// Command dispatch
// ---------------------------------------------------------------------------
/// The whole mutating surface as one transition function: from state,
/// reported balances, call info and command to next state and outcome.
pub open spec fn spec_execute(
    s: StateV,
    balances: Seq<CoinV>,
    info: MessageInfoV,
    msg: ExecuteMsgV,
) -> (StateV, Result<ResponseV, ErrorV>) {
    match msg {
        ExecuteMsgV::InitiateAgreement { initiator_token, counterparty_token, counterparty } => {
            spec_initiate(s, info, initiator_token, counterparty_token, counterparty)
        },
        ExecuteMsgV::AcceptAgreement { id } => spec_accept(s, info, id),
        ExecuteMsgV::ExecuteAgreement { id } => spec_execute_agreement(s, info.sender, balances, id),
        ExecuteMsgV::CancelAgreement { id } => spec_cancel_agreement(s, info.sender, balances, id),
    }
}

/// Dispatches one mutating command.  A failed command leaves the state
/// exactly as it was; a successful one applies the transition the command
/// names.  `balances` is the contract's held balance listing as the host
/// reports it at the time of the call; only execution and cancellation
/// consult it.
pub fn execute(
    state: &mut ContractState,
    balances: &Vec<Coin>,
    info: MessageInfo,
    msg: ExecuteMsg,
) -> (r: Result<Response, ContractError>)
    requires
        old(state).wf(),
        msg is InitiateAgreement ==> old(state).total_agreement_count < u64::MAX,
    ensures
        final(state).wf(),
        (final(state)@, res_view(r)) == spec_execute(
            old(state)@,
            balances.deep_view(),
            info@,
            msg@,
        ),
{
    match msg {
        ExecuteMsg::InitiateAgreement { initiator_token, counterparty_token, counterparty } => {
            try_initiate_agreement(state, info, initiator_token, counterparty_token, counterparty)
        },
        ExecuteMsg::AcceptAgreement { id } => try_accept_agreement(state, info, id),
        ExecuteMsg::ExecuteAgreement { id } => try_execute_agreement(state, balances, info, id),
        ExecuteMsg::CancelAgreement { id } => try_cancel_agreement(state, balances, info, id),
    }
}

// ---------------------------------------------------------------------------
// Query dispatch
// ---------------------------------------------------------------------------
/// The first id of the requested page: `page * page_size`, taken as zero when
/// the product overflows.
pub open spec fn spec_page_start(page: u64, page_size: u64) -> u64 {
    if page * page_size > u64::MAX {
        0
    } else {
        (page * page_size) as u64
    }
}

/// One past the last id of the requested page: `start + page_size`, saturated
/// at the maximum id on overflow.
pub open spec fn spec_page_end(start: u64, page_size: u64) -> u64 {
    if start + page_size > u64::MAX {
        u64::MAX
    } else {
        (start + page_size) as u64
    }
}

/// Turns a page request into the half-open id window it scans.
pub fn page_bounds(page: u64, page_size: u64) -> (r: (u64, u64))
    ensures
        r.0 == spec_page_start(page, page_size),
        r.1 == spec_page_end(r.0, page_size),
{
    let start = match page.checked_mul(page_size) {
        Some(v) => v,
        None => 0,
    };
    let end = start.saturating_add(page_size);
    (start, end)
}

/// The whole read-only surface as one function of the state.
pub open spec fn spec_query(s: StateV, msg: QueryMsgV) -> Result<QueryAnswerV, ErrorV> {
    match msg {
        QueryMsgV::GetAgreement { id } => match spec_get_agreement(s, id) {
            Ok(a) => Ok(QueryAnswerV::Agreement { agreement: a }),
            Err(e) => Err(e),
        },
        QueryMsgV::GetTotalAgreementCount => Ok(
            QueryAnswerV::TotalAgreementCount { count: s.total },
        ),
        QueryMsgV::GetInitiatedAgreementCount => Ok(
            QueryAnswerV::InitiatedAgreementCount { count: s.initiated },
        ),
        QueryMsgV::GetAcceptedAgreementCount => Ok(
            QueryAnswerV::AcceptedAgreementCount { count: s.accepted },
        ),
        QueryMsgV::GetExecutedAgreementCount => Ok(
            QueryAnswerV::ExecutedAgreementCount { count: s.executed },
        ),
        QueryMsgV::GetCanceledAgreementCount => Ok(
            QueryAnswerV::CanceledAgreementCount { count: s.canceled },
        ),
        QueryMsgV::GetAgreementsByInitiator { initiator, page, page_size } => {
            let lo = spec_page_start(page, page_size);
            let hi = spec_page_end(lo, page_size);
            Ok(
                QueryAnswerV::Agreements {
                    agreements: filtered_agreements(
                        s.agreements,
                        AgreementFilter::ByInitiator(initiator),
                        lo,
                        hi,
                    ),
                },
            )
        },
        QueryMsgV::GetAgreementsByCounterparty { counterparty, page, page_size } => {
            let lo = spec_page_start(page, page_size);
            let hi = spec_page_end(lo, page_size);
            Ok(
                QueryAnswerV::Agreements {
                    agreements: filtered_agreements(
                        s.agreements,
                        AgreementFilter::ByCounterparty(counterparty),
                        lo,
                        hi,
                    ),
                },
            )
        },
        QueryMsgV::GetAgreementsByStatus { status, page, page_size } => {
            let lo = spec_page_start(page, page_size);
            let hi = spec_page_end(lo, page_size);
            Ok(
                QueryAnswerV::Agreements {
                    agreements: filtered_agreements(
                        s.agreements,
                        AgreementFilter::ByStatus(status),
                        lo,
                        hi,
                    ),
                },
            )
        },
    }
}

/// Dispatches one read-only query.  Queries never change the state, and the
/// answer is a function of the state alone.
pub fn query(state: &ContractState, msg: QueryMsg) -> (r: Result<QueryAnswer, ContractError>)
    requires
        state.wf(),
    ensures
        res_view(r) == spec_query(state@, msg@),
{
    match msg {
        QueryMsg::GetAgreement { id } => match query_agreement(state, id) {
            Ok(resp) => Ok(QueryAnswer::Agreement(resp)),
            Err(e) => Err(e),
        },
        QueryMsg::GetTotalAgreementCount => Ok(
            QueryAnswer::TotalAgreementCount(crate::state::query_total_agreement_count(state)),
        ),
        QueryMsg::GetInitiatedAgreementCount => Ok(
            QueryAnswer::InitiatedAgreementCount(
                crate::state::query_initiated_agreement_count(state),
            ),
        ),
        QueryMsg::GetAcceptedAgreementCount => Ok(
            QueryAnswer::AcceptedAgreementCount(
                crate::state::query_accepted_agreement_count(state),
            ),
        ),
        QueryMsg::GetExecutedAgreementCount => Ok(
            QueryAnswer::ExecutedAgreementCount(
                crate::state::query_executed_agreement_count(state),
            ),
        ),
        QueryMsg::GetCanceledAgreementCount => Ok(
            QueryAnswer::CanceledAgreementCount(
                crate::state::query_canceled_agreement_count(state),
            ),
        ),
        QueryMsg::GetAgreementsByInitiator { initiator, page, page_size } => {
            let (lo, hi) = page_bounds(page, page_size);
            Ok(QueryAnswer::Agreements(query_agreements_by_initiator(state, initiator, lo, hi)))
        },
        QueryMsg::GetAgreementsByCounterparty { counterparty, page, page_size } => {
            let (lo, hi) = page_bounds(page, page_size);
            Ok(
                QueryAnswer::Agreements(
                    query_agreements_by_counterparty(state, counterparty, lo, hi),
                ),
            )
        },
        QueryMsg::GetAgreementsByStatus { status, page, page_size } => {
            let (lo, hi) = page_bounds(page, page_size);
            Ok(QueryAnswer::Agreements(query_agreements_by_status(state, status, lo, hi)))
        },
    }
}

} // verus!
