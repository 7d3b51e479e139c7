//! The library's laws: general properties of the transition system, stated
//! over the spec-level transitions that the executable operations are proved
//! to implement.

use vstd::prelude::*;

use crate::contract::{
    spec_accept, spec_execute, spec_execute_agreement, spec_initiate,
};
use crate::error::ErrorV;
use crate::msg::{CoinV, ExecuteMsgV, MessageInfoV, ResponseV, TokenInfoV};
use crate::numerals::dec_str;
use crate::state::{
    count_status, lemma_count_status_at_least_one, lemma_count_status_le_len, lemma_count_status_partition,
    lemma_count_status_push, lemma_count_status_update, spec_get_agreement, status_label,
    AgreementStatus, AgreementV, StateV,
};
use crate::utils::{spec_check_funds, status_list_label};

verus! {

/// Sequence monotonicity, static half: in any well-formed state the stored
/// ids start at 1 and each record's id exceeds its predecessor's by exactly
/// one, so ids are strictly increasing in storage order.
pub proof fn lemma_ids_sequential(s: StateV)
    requires
        s.wf(),
    ensures
        s.agreements.len() > 0 ==> s.agreements[0].id == 1,
        forall|i: int|
            0 < i < s.agreements.len() ==> (#[trigger] s.agreements[i]).id as int
                == s.agreements[i - 1].id as int + 1,
        forall|i: int, j: int|
            0 <= i < j < s.agreements.len() ==> (#[trigger] s.agreements[i]).id < (
            #[trigger] s.agreements[j]).id,
{
}

/// Sequence monotonicity, dynamic half: a successful initiation issues
/// exactly the next sequence id, one more than the last issued one, and
/// reports it in the id attribute of its response.
pub proof fn lemma_initiate_returns_next_id(
    s: StateV,
    info: MessageInfoV,
    initiator_token: TokenInfoV,
    counterparty_token: TokenInfoV,
    counterparty: Seq<char>,
)
    requires
        s.wf(),
        s.total < u64::MAX,
        spec_initiate(s, info, initiator_token, counterparty_token, counterparty).1 is Ok,
    ensures
        ({
            let (s2, r) = spec_initiate(s, info, initiator_token, counterparty_token, counterparty);
            &&& s2.total as int == s.total as int + 1
            &&& s2.agreements.len() == s.agreements.len() + 1
            &&& s2.agreements.last().id as int == s.total as int + 1
            &&& r->Ok_0.attributes[1].value == dec_str((s.total + 1) as nat)
        }),
{
}

/// Sequence monotonicity, two calls in a row: the ids returned by two
/// consecutive successful initiations differ by exactly one.
pub proof fn lemma_initiate_ids_strictly_increasing(
    s: StateV,
    info1: MessageInfoV,
    initiator_token1: TokenInfoV,
    counterparty_token1: TokenInfoV,
    counterparty1: Seq<char>,
    info2: MessageInfoV,
    initiator_token2: TokenInfoV,
    counterparty_token2: TokenInfoV,
    counterparty2: Seq<char>,
)
    requires
        s.wf(),
        s.total as int + 1 < u64::MAX,
        spec_initiate(s, info1, initiator_token1, counterparty_token1, counterparty1).1 is Ok,
        spec_initiate(
            spec_initiate(s, info1, initiator_token1, counterparty_token1, counterparty1).0,
            info2,
            initiator_token2,
            counterparty_token2,
            counterparty2,
        ).1 is Ok,
    ensures
        ({
            let s2 = spec_initiate(s, info1, initiator_token1, counterparty_token1, counterparty1).0;
            let s3 = spec_initiate(
                s2,
                info2,
                initiator_token2,
                counterparty_token2,
                counterparty2,
            ).0;
            s3.agreements.last().id as int == s2.agreements.last().id as int + 1
        }),
{
}

/// Well-formedness is preserved: every command, successful or not, leaves a
/// well-formed state well-formed.  Together with [`lemma_counter_consistency`]
/// this carries the counter and id invariants over any sequence of commands.
pub proof fn lemma_execute_preserves_wf(
    s: StateV,
    balances: Seq<CoinV>,
    info: MessageInfoV,
    msg: ExecuteMsgV,
)
    requires
        s.wf(),
        msg is InitiateAgreement ==> s.total < u64::MAX,
    ensures
        spec_execute(s, balances, info, msg).0.wf(),
{
    let s2 = spec_execute(s, balances, info, msg).0;
    match msg {
        ExecuteMsgV::InitiateAgreement { initiator_token, counterparty_token, counterparty } => {
            if info.sender != counterparty && spec_check_funds(info.funds, initiator_token)
                is None {
                let a = AgreementV {
                    id: (s.total + 1) as u64,
                    initiator: info.sender,
                    initiator_token,
                    counterparty,
                    counterparty_token,
                    status: AgreementStatus::Initiated,
                };
                lemma_count_status_le_len(s.agreements, AgreementStatus::Initiated);
                lemma_count_status_push(s.agreements, a, AgreementStatus::Initiated);
                lemma_count_status_push(s.agreements, a, AgreementStatus::Accepted);
                lemma_count_status_push(s.agreements, a, AgreementStatus::Executed);
                lemma_count_status_push(s.agreements, a, AgreementStatus::Canceled);
            }
        },
        ExecuteMsgV::AcceptAgreement { id } => {
            if spec_get_agreement(s, id) is Ok {
                let a = spec_get_agreement(s, id)->Ok_0;
                if info.sender == a.counterparty && spec_check_funds(info.funds,
                    a.counterparty_token,
                ) is None && a.status == AgreementStatus::Initiated {
                    let a2 = AgreementV { status: AgreementStatus::Accepted, ..a };
                    lemma_single_update_keeps_wf(s, id, a2);
                }
            }
        },
        ExecuteMsgV::ExecuteAgreement { id } => {
            if spec_get_agreement(s, id) is Ok {
                let a = spec_get_agreement(s, id)->Ok_0;
                if (info.sender == a.initiator || info.sender == a.counterparty) && a.status
                    == AgreementStatus::Accepted {
                    let a2 = AgreementV { status: AgreementStatus::Executed, ..a };
                    lemma_single_update_keeps_wf(s, id, a2);
                }
            }
        },
        ExecuteMsgV::CancelAgreement { id } => {
            if spec_get_agreement(s, id) is Ok {
                let a = spec_get_agreement(s, id)->Ok_0;
                if (info.sender == a.initiator || info.sender == a.counterparty) && (a.status
                    == AgreementStatus::Initiated || a.status == AgreementStatus::Accepted) {
                    let a2 = AgreementV { status: AgreementStatus::Canceled, ..a };
                    lemma_single_update_keeps_wf(s, id, a2);
                }
            }
        },
    }
}

/// Replacing the record stored under `id` moves one unit of count from the
/// status it had to the status it now has, and no counter under- or
/// overflows in the process.
proof fn lemma_single_update_keeps_wf(s: StateV, id: u64, a2: AgreementV)
    requires
        s.wf(),
        1 <= id,
        id as int <= s.agreements.len() as int,
    ensures
        ({
            let i = id as int - 1;
            &&& count_status(s.agreements, s.agreements[i].status) >= 1
            &&& count_status(s.agreements, AgreementStatus::Initiated)
                + count_status(s.agreements, AgreementStatus::Accepted)
                + count_status(s.agreements, AgreementStatus::Executed)
                + count_status(s.agreements, AgreementStatus::Canceled)
                == s.agreements.len()
            &&& forall|st: AgreementStatus|
                count_status(#[trigger] s.agreements.update(i, a2), st) as int
                    == count_status(s.agreements, st) as int - (
                if s.agreements[i].status == st {
                    1int
                } else {
                    0int
                }) + (
                if a2.status == st {
                    1int
                } else {
                    0int
                })
        }),
{
    let i = id as int - 1;
    lemma_count_status_at_least_one(s.agreements, i, s.agreements[i].status);
    lemma_count_status_partition(s.agreements);
    assert forall|st: AgreementStatus|
        count_status(#[trigger] s.agreements.update(i, a2), st) as int
            == count_status(s.agreements, st) as int - (
        if s.agreements[i].status == st {
            1int
        } else {
            0int
        }) + (
        if a2.status == st {
            1int
        } else {
            0int
        }) by {
        lemma_count_status_update(s.agreements, i, a2, st);
    }
}

/// Status forward-only: no command brings a record back to initiated once it
/// has left that status, no command changes a record that has reached a
/// terminal status, and no command ever changes a stored id.
pub proof fn lemma_status_forward_only(
    s: StateV,
    balances: Seq<CoinV>,
    info: MessageInfoV,
    msg: ExecuteMsgV,
)
    requires
        s.wf(),
    ensures
        spec_execute(s, balances, info, msg).0.agreements.len() >= s.agreements.len(),
        forall|i: int|
            0 <= i < s.agreements.len() ==> {
                let before = s.agreements[i];
                let after = #[trigger] spec_execute(s, balances, info, msg).0.agreements[i];
                &&& after.id == before.id
                &&& (after.status == AgreementStatus::Initiated ==> before.status
                    == AgreementStatus::Initiated)
                &&& (before.status.is_terminal() ==> after == before)
            },
{
}

/// Authorization of acceptance: any caller other than the stored
/// counterparty is turned away with `Unauthorized`, whatever funds it
/// attaches, and the state does not change.
pub proof fn lemma_accept_requires_counterparty(s: StateV, info: MessageInfoV, id: u64)
    requires
        spec_get_agreement(s, id) is Ok,
        info.sender != spec_get_agreement(s, id)->Ok_0.counterparty,
    ensures
        spec_accept(s, info, id) == (
            s,
            Err::<ResponseV, ErrorV>(
                ErrorV::Unauthorized {
                    expected: spec_get_agreement(s, id)->Ok_0.counterparty,
                    found: info.sender,
                },
            ),
        ),
{
}

/// Execution requires acceptance: a party calling execute on a record still
/// in status initiated is turned away with `InvalidAgreementStatus`, and the
/// state does not change.
pub proof fn lemma_execute_requires_accepted(
    s: StateV,
    sender: Seq<char>,
    balances: Seq<CoinV>,
    id: u64,
)
    requires
        spec_get_agreement(s, id) is Ok,
        sender == spec_get_agreement(s, id)->Ok_0.initiator || sender == spec_get_agreement(
            s,
            id,
        )->Ok_0.counterparty,
        spec_get_agreement(s, id)->Ok_0.status == AgreementStatus::Initiated,
    ensures
        spec_execute_agreement(s, sender, balances, id) == (
            s,
            Err::<ResponseV, ErrorV>(
                ErrorV::InvalidAgreementStatus {
                    expected: status_label(AgreementStatus::Accepted),
                    found: status_label(AgreementStatus::Initiated),
                },
            ),
        ),
{
    assert(status_list_label(seq![AgreementStatus::Accepted]) == status_label(
        AgreementStatus::Accepted,
    ));
}

/// Counter consistency: in any well-formed state the total equals the sum of
/// the four per-status counts; as every operation preserves well-formedness,
/// this holds after any sequence of successful operations.
pub proof fn lemma_counter_consistency(s: StateV)
    requires
        s.wf(),
    ensures
        s.total as int == s.initiated as int + s.accepted as int + s.executed as int + s.canceled
            as int,
{
    lemma_count_status_partition(s.agreements);
}

/// Idempotent read: the agreement lookup is a function of the state alone,
/// so two reads of the same id with no mutation in between return identical
/// results.
pub proof fn lemma_get_agreement_idempotent(
    s: StateV,
    id: u64,
    r1: Result<AgreementV, ErrorV>,
    r2: Result<AgreementV, ErrorV>,
)
    requires
        r1 == spec_get_agreement(s, id),
        r2 == spec_get_agreement(s, id),
    ensures
        r1 == r2,
{
}

} // verus!
