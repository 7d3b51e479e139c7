use vstd::prelude::*;
use vstd::string::StringExecFns;

use crate::error::{res_view, ContractError, ErrorV};
use crate::msg::{
    AcceptedAgreementCountResponse, AgreementResponse, AgreementsResponse,
    CanceledAgreementCountResponse, ExecutedAgreementCountResponse,
    InitiatedAgreementCountResponse, TokenInfo, TokenInfoV, TotalAgreementCountResponse,
};

verus! {

// ---------------------------------------------------------------------------
// Status
// ---------------------------------------------------------------------------
/// The lifecycle state of an agreement.  Transitions run strictly forward
/// along initiated -> accepted -> executed | canceled, with
/// initiated -> canceled also legal; executed and canceled are terminal.
#[derive(Clone, Copy, Debug, PartialEq, Eq, Structural)]
pub enum AgreementStatus {
    Initiated,
    Accepted,
    Executed,
    Canceled,
}

/// The textual name of a status, as it appears in response metadata and in
/// error messages.
pub open spec fn status_label(st: AgreementStatus) -> Seq<char> {
    match st {
        AgreementStatus::Initiated => "initiated"@,
        AgreementStatus::Accepted => "accepted"@,
        AgreementStatus::Executed => "executed"@,
        AgreementStatus::Canceled => "canceled"@,
    }
}

impl AgreementStatus {
    /// Renders the status as its textual name.
    pub fn label(&self) -> (r: String)
        ensures
            r@ == status_label(*self),
    {
        match self {
            AgreementStatus::Initiated => String::from_str("initiated"),
            AgreementStatus::Accepted => String::from_str("accepted"),
            AgreementStatus::Executed => String::from_str("executed"),
            AgreementStatus::Canceled => String::from_str("canceled"),
        }
    }

    /// Whether this status is terminal: a terminal record never changes again.
    pub open spec fn is_terminal(self) -> bool {
        self == AgreementStatus::Executed || self == AgreementStatus::Canceled
    }
}

// ---------------------------------------------------------------------------
// Agreement
// ---------------------------------------------------------------------------
/// Spec-level image of an [`Agreement`].
#[verifier::ext_equal]
pub struct AgreementV {
    pub id: u64,
    pub initiator: Seq<char>,
    pub initiator_token: TokenInfoV,
    pub counterparty: Seq<char>,
    pub counterparty_token: TokenInfoV,
    pub status: AgreementStatus,
}

/// The escrow record describing a two-party token swap and its current
/// lifecycle state.  Created only by initiation; mutated only by acceptance,
/// execution and cancellation; never mutated after reaching a terminal state.
#[derive(Debug, PartialEq, Eq)]
pub struct Agreement {
    pub id: u64,
    pub initiator: String,
    pub initiator_token: TokenInfo,
    pub counterparty: String,
    pub counterparty_token: TokenInfo,
    pub status: AgreementStatus,
}

impl View for Agreement {
    type V = AgreementV;

    open spec fn view(&self) -> AgreementV {
        AgreementV {
            id: self.id,
            initiator: self.initiator@,
            initiator_token: self.initiator_token@,
            counterparty: self.counterparty@,
            counterparty_token: self.counterparty_token@,
            status: self.status,
        }
    }
}

impl DeepView for Agreement {
    type V = AgreementV;

    open spec fn deep_view(&self) -> AgreementV {
        self.view()
    }
}

impl Clone for Agreement {
    fn clone(&self) -> (r: Self)
        ensures
            r == *self,
    {
        Agreement {
            id: self.id,
            initiator: self.initiator.clone(),
            initiator_token: self.initiator_token.clone(),
            counterparty: self.counterparty.clone(),
            counterparty_token: self.counterparty_token.clone(),
            status: self.status,
        }
    }
}

// ---------------------------------------------------------------------------
// Counting agreements by status
// ---------------------------------------------------------------------------
/// How many agreements of `s` carry status `st`.
pub open spec fn count_status(s: Seq<AgreementV>, st: AgreementStatus) -> nat
    decreases s.len(),
{
    if s.len() == 0 {
        0
    } else {
        count_status(s.drop_last(), st) + (if s.last().status == st {
            1nat
        } else {
            0nat
        })
    }
}

/// Appending one agreement raises exactly the count of its own status by one.
pub proof fn lemma_count_status_push(s: Seq<AgreementV>, a: AgreementV, st: AgreementStatus)
    ensures
        count_status(s.push(a), st) == count_status(s, st) + (if a.status == st {
            1nat
        } else {
            0nat
        }),
{
    assert(s.push(a).drop_last() =~= s);
    assert(s.push(a).last() == a);
}

/// Replacing the agreement at `i` moves one unit of count from the status it
/// had to the status it now has.
pub proof fn lemma_count_status_update(
    s: Seq<AgreementV>,
    i: int,
    a: AgreementV,
    st: AgreementStatus,
)
    requires
        0 <= i < s.len(),
    ensures
        count_status(s.update(i, a), st) as int == count_status(s, st) as int - (if s[i].status
            == st {
            1int
        } else {
            0int
        }) + (if a.status == st {
            1int
        } else {
            0int
        }),
    decreases s.len(),
{
    if i == s.len() - 1 {
        assert(s.update(i, a).drop_last() =~= s.drop_last());
        assert(s.update(i, a).last() == a);
        assert(s.last() == s[i]);
    } else {
        assert(s.update(i, a).drop_last() =~= s.drop_last().update(i, a));
        assert(s.update(i, a).last() == s.last());
        lemma_count_status_update(s.drop_last(), i, a, st);
    }
}

/// An agreement with status `st` at any position makes the count positive.
pub proof fn lemma_count_status_at_least_one(s: Seq<AgreementV>, i: int, st: AgreementStatus)
    requires
        0 <= i < s.len(),
        s[i].status == st,
    ensures
        count_status(s, st) >= 1,
    decreases s.len(),
{
    if i == s.len() - 1 {
    } else {
        assert(s.drop_last()[i] == s[i]);
        lemma_count_status_at_least_one(s.drop_last(), i, st);
    }
}

/// No count exceeds the population.
pub proof fn lemma_count_status_le_len(s: Seq<AgreementV>, st: AgreementStatus)
    ensures
        count_status(s, st) <= s.len(),
    decreases s.len(),
{
    if s.len() > 0 {
        lemma_count_status_le_len(s.drop_last(), st);
    }
}

/// Every agreement carries exactly one status, so the four per-status counts
/// partition the population.
pub proof fn lemma_count_status_partition(s: Seq<AgreementV>)
    ensures
        count_status(s, AgreementStatus::Initiated) + count_status(s, AgreementStatus::Accepted)
            + count_status(s, AgreementStatus::Executed) + count_status(
            s,
            AgreementStatus::Canceled,
        ) == s.len(),
    decreases s.len(),
{
    if s.len() > 0 {
        lemma_count_status_partition(s.drop_last());
    }
}

// ---------------------------------------------------------------------------
// Contract state
// ---------------------------------------------------------------------------
/// Spec-level image of a [`ContractState`].
#[verifier::ext_equal]
pub struct StateV {
    pub agreements: Seq<AgreementV>,
    pub total: u64,
    pub initiated: u64,
    pub accepted: u64,
    pub executed: u64,
    pub canceled: u64,
}

impl StateV {
    /// Well-formedness: ids are assigned densely from 1 in creation order (so
    /// the total counter doubles as the last issued id), and every counter
    /// equals the population it claims to track.
    pub open spec fn wf(self) -> bool {
        &&& self.agreements.len() == self.total as nat
        &&& forall|i: int|
            0 <= i < self.agreements.len() ==> (#[trigger] self.agreements[i]).id as int == i + 1
        &&& self.initiated as nat == count_status(self.agreements, AgreementStatus::Initiated)
        &&& self.accepted as nat == count_status(self.agreements, AgreementStatus::Accepted)
        &&& self.executed as nat == count_status(self.agreements, AgreementStatus::Executed)
        &&& self.canceled as nat == count_status(self.agreements, AgreementStatus::Canceled)
    }
}

/// The whole persisted state of one contract instance: the agreement records
/// in ascending id order, plus the sequence and status counters.  Every
/// operation takes the state by reference or `&mut` reference; nothing here
/// is a process-wide singleton, so independent instances never share
/// counters.
#[derive(Debug)]
pub struct ContractState {
    pub agreements: Vec<Agreement>,
    pub total_agreement_count: u64,
    pub initiated_agreement_count: u64,
    pub accepted_agreement_count: u64,
    pub executed_agreement_count: u64,
    pub canceled_agreement_count: u64,
}

impl View for ContractState {
    type V = StateV;

    open spec fn view(&self) -> StateV {
        StateV {
            agreements: self.agreements.deep_view(),
            total: self.total_agreement_count,
            initiated: self.initiated_agreement_count,
            accepted: self.accepted_agreement_count,
            executed: self.executed_agreement_count,
            canceled: self.canceled_agreement_count,
        }
    }
}

impl ContractState {
    /// Well-formedness of the state; established at creation and preserved by
    /// every operation.
    pub open spec fn wf(&self) -> bool {
        self@.wf()
    }
}

// ---------------------------------------------------------------------------
// Direct lookup
// ---------------------------------------------------------------------------
/// The record stored under `id`, or `NotFound`.  In a well-formed state the
/// record with id `k` sits at position `k - 1`.
pub open spec fn spec_get_agreement(s: StateV, id: u64) -> Result<AgreementV, ErrorV> {
    if 1 <= id && id as int <= s.agreements.len() as int {
        Ok(s.agreements[id as int - 1])
    } else {
        Err(ErrorV::NotFound { id })
    }
}

/// Queries a specific agreement by its id; `NotFound` if no record exists.
pub fn query_agreement(state: &ContractState, id: u64) -> (r: Result<
    AgreementResponse,
    ContractError,
>)
    requires
        state.wf(),
    ensures
        res_view(r) == spec_get_agreement(state@, id),
        r matches Ok(resp) ==> resp.agreement.id == id,
{
    if id >= 1 && id - 1 < state.agreements.len() as u64 {
        let idx = (id - 1) as usize;
        let agreement = state.agreements[idx].clone();
        Ok(AgreementResponse { agreement })
    } else {
        Err(ContractError::NotFound { id })
    }
}

// ---------------------------------------------------------------------------
// Counter queries
// ---------------------------------------------------------------------------
/// Queries the total number of agreements ever created.
pub fn query_total_agreement_count(state: &ContractState) -> (r: TotalAgreementCountResponse)
    ensures
        r.total_agreement_count == state.total_agreement_count,
{
    TotalAgreementCountResponse { total_agreement_count: state.total_agreement_count }
}

/// Queries the number of agreements currently in status initiated.
pub fn query_initiated_agreement_count(state: &ContractState) -> (r:
    InitiatedAgreementCountResponse)
    ensures
        r.initiated_agreement_count == state.initiated_agreement_count,
{
    InitiatedAgreementCountResponse { initiated_agreement_count: state.initiated_agreement_count }
}

/// Queries the number of agreements currently in status accepted.
pub fn query_accepted_agreement_count(state: &ContractState) -> (r: AcceptedAgreementCountResponse)
    ensures
        r.accepted_agreement_count == state.accepted_agreement_count,
{
    AcceptedAgreementCountResponse { accepted_agreement_count: state.accepted_agreement_count }
}

/// Queries the number of agreements that have been executed.
pub fn query_executed_agreement_count(state: &ContractState) -> (r: ExecutedAgreementCountResponse)
    ensures
        r.executed_agreement_count == state.executed_agreement_count,
{
    ExecutedAgreementCountResponse { executed_agreement_count: state.executed_agreement_count }
}

/// Queries the number of agreements that have been canceled.
pub fn query_canceled_agreement_count(state: &ContractState) -> (r: CanceledAgreementCountResponse)
    ensures
        r.canceled_agreement_count == state.canceled_agreement_count,
{
    CanceledAgreementCountResponse { canceled_agreement_count: state.canceled_agreement_count }
}

// ---------------------------------------------------------------------------
// Filtered enumeration
// ---------------------------------------------------------------------------
/// The equality predicate of a filtered query: by initiator, by counterparty,
/// or by status.
pub enum AgreementFilter {
    ByInitiator(Seq<char>),
    ByCounterparty(Seq<char>),
    ByStatus(AgreementStatus),
}

/// Whether the filter selects the agreement.
pub open spec fn filter_selects(a: AgreementV, f: AgreementFilter) -> bool {
    match f {
        AgreementFilter::ByInitiator(addr) => a.initiator == addr,
        AgreementFilter::ByCounterparty(addr) => a.counterparty == addr,
        AgreementFilter::ByStatus(st) => a.status == st,
    }
}

/// Whether the agreement's id falls in the queried half-open id window
/// `[start_after, end_before)`.
pub open spec fn in_id_window(a: AgreementV, start_after: u64, end_before: u64) -> bool {
    start_after <= a.id && a.id < end_before
}

/// The agreements of `s`, in order, whose id falls in the window and which
/// the filter selects.  Pagination is over the id space, not over the
/// filtered result count, so a window may select fewer matches than it could
/// hold even when more exist beyond it.
pub open spec fn filtered_agreements(
    s: Seq<AgreementV>,
    f: AgreementFilter,
    start_after: u64,
    end_before: u64,
) -> Seq<AgreementV>
    decreases s.len(),
{
    if s.len() == 0 {
        Seq::<AgreementV>::empty()
    } else {
        let rest = filtered_agreements(s.drop_last(), f, start_after, end_before);
        if in_id_window(s.last(), start_after, end_before) && filter_selects(s.last(), f) {
            rest.push(s.last())
        } else {
            rest
        }
    }
}

/// The exec-side counterpart of an [`AgreementFilter`].
enum FilterBy<'a> {
    Initiator(&'a String),
    Counterparty(&'a String),
    Status(AgreementStatus),
}

/// The spec filter that an exec filter stands for.
spec fn filter_view(f: FilterBy) -> AgreementFilter {
    match f {
        FilterBy::Initiator(s) => AgreementFilter::ByInitiator(s@),
        FilterBy::Counterparty(s) => AgreementFilter::ByCounterparty(s@),
        FilterBy::Status(st) => AgreementFilter::ByStatus(st),
    }
}

/// Linear scan over all records in ascending id order; the only access path
/// for multi-record queries, as there is no secondary index.
fn scan_agreements(
    agreements: &Vec<Agreement>,
    f: &FilterBy,
    start_after: u64,
    end_before: u64,
) -> (r: Vec<Agreement>)
    ensures
        r.deep_view() == filtered_agreements(
            agreements.deep_view(),
            filter_view(*f),
            start_after,
            end_before,
        ),
{
    let ghost av = agreements.deep_view();
    let ghost fv = filter_view(*f);
    let mut out: Vec<Agreement> = Vec::new();
    proof {
        assert(av.take(0) =~= Seq::<AgreementV>::empty());
    }
    let n = agreements.len();
    let mut i: usize = 0;
    while i < n
        invariant
            av == agreements.deep_view(),
            fv == filter_view(*f),
            n == agreements@.len(),
            0 <= i <= n,
            av.len() == n,
            out.deep_view() == filtered_agreements(av.take(i as int), fv, start_after, end_before),
        decreases n - i,
    {
        let a = &agreements[i];
        let selected = match f {
            FilterBy::Initiator(s) => a.initiator == **s,
            FilterBy::Counterparty(s) => a.counterparty == **s,
            FilterBy::Status(st) => a.status == *st,
        };
        proof {
            assert(av.take(i + 1).drop_last() =~= av.take(i as int));
            assert(av.take(i + 1).last() == av[i as int]);
        }
        if start_after <= a.id && a.id < end_before && selected {
            out.push(a.clone());
            proof {
                assert(out.deep_view() =~= filtered_agreements(
                    av.take(i + 1),
                    fv,
                    start_after,
                    end_before,
                ));
            }
        }
        i += 1;
    }
    proof {
        assert(av.take(n as int) =~= av);
    }
    out
}

/// Queries agreements initiated by a specific identity whose ids fall in
/// `[start_after, end_before)`, ascending by id.
pub fn query_agreements_by_initiator(
    state: &ContractState,
    initiator: String,
    start_after: u64,
    end_before: u64,
) -> (r: AgreementsResponse)
    ensures
        r@ == filtered_agreements(
            state@.agreements,
            AgreementFilter::ByInitiator(initiator@),
            start_after,
            end_before,
        ),
{
    AgreementsResponse {
        agreements: scan_agreements(
            &state.agreements,
            &FilterBy::Initiator(&initiator),
            start_after,
            end_before,
        ),
    }
}

/// Queries agreements naming a specific counterparty whose ids fall in
/// `[start_after, end_before)`, ascending by id.
pub fn query_agreements_by_counterparty(
    state: &ContractState,
    counterparty: String,
    start_after: u64,
    end_before: u64,
) -> (r: AgreementsResponse)
    ensures
        r@ == filtered_agreements(
            state@.agreements,
            AgreementFilter::ByCounterparty(counterparty@),
            start_after,
            end_before,
        ),
{
    AgreementsResponse {
        agreements: scan_agreements(
            &state.agreements,
            &FilterBy::Counterparty(&counterparty),
            start_after,
            end_before,
        ),
    }
}

/// Queries agreements carrying a specific status whose ids fall in
/// `[start_after, end_before)`, ascending by id.
pub fn query_agreements_by_status(
    state: &ContractState,
    status: AgreementStatus,
    start_after: u64,
    end_before: u64,
) -> (r: AgreementsResponse)
    ensures
        r@ == filtered_agreements(
            state@.agreements,
            AgreementFilter::ByStatus(status),
            start_after,
            end_before,
        ),
{
    AgreementsResponse {
        agreements: scan_agreements(
            &state.agreements,
            &FilterBy::Status(status),
            start_after,
            end_before,
        ),
    }
}

} // verus!
