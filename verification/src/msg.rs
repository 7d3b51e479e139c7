use vstd::prelude::*;
use vstd::string::StringExecFns;

use crate::numerals::{dec_str, u128_to_string};
use crate::state::{Agreement, AgreementStatus, AgreementV};

verus! {

// ---------------------------------------------------------------------------
// Tokens and coins
// ---------------------------------------------------------------------------
/// Spec-level image of a [`TokenInfo`].
#[verifier::ext_equal]
pub struct TokenInfoV {
    pub address: Seq<char>,
    pub amount: u128,
}

/// A fixed quantity of a specific fungible asset: the identifier of the asset
/// and the amount required.  Immutable once embedded in an agreement.
#[derive(Debug, PartialEq, Eq)]
pub struct TokenInfo {
    pub address: String,
    pub amount: u128,
}

impl View for TokenInfo {
    type V = TokenInfoV;

    open spec fn view(&self) -> TokenInfoV {
        TokenInfoV { address: self.address@, amount: self.amount }
    }
}

impl DeepView for TokenInfo {
    type V = TokenInfoV;

    open spec fn deep_view(&self) -> TokenInfoV {
        self.view()
    }
}

impl Clone for TokenInfo {
    fn clone(&self) -> (r: Self)
        ensures
            r == *self,
    {
        TokenInfo { address: self.address.clone(), amount: self.amount }
    }
}

/// The rendering of a token as text: the decimal amount directly followed by
/// the asset identifier, as in `1000tokenA`.
pub open spec fn token_str(t: TokenInfoV) -> Seq<char> {
    dec_str(t.amount as nat) + t.address
}

impl TokenInfo {
    /// Renders the token as its textual form, amount first.
    pub fn into_string(self) -> (r: String)
        ensures
            r@ == token_str(self@),
    {
        u128_to_string(self.amount).concat(self.address.as_str())
    }
}

/// Spec-level image of a [`Coin`].
#[verifier::ext_equal]
pub struct CoinV {
    pub denom: Seq<char>,
    pub amount: u128,
}

/// One attached-funds entry: an asset identifier and the amount of it that
/// the host transferred to the contract atomically with the call.
#[derive(Debug, PartialEq, Eq)]
pub struct Coin {
    pub denom: String,
    pub amount: u128,
}

impl View for Coin {
    type V = CoinV;

    open spec fn view(&self) -> CoinV {
        CoinV { denom: self.denom@, amount: self.amount }
    }
}

impl DeepView for Coin {
    type V = CoinV;

    open spec fn deep_view(&self) -> CoinV {
        self.view()
    }
}

impl Clone for Coin {
    fn clone(&self) -> (r: Self)
        ensures
            r == *self,
    {
        Coin { denom: self.denom.clone(), amount: self.amount }
    }
}

/// Spec-level image of a [`MessageInfo`].
#[verifier::ext_equal]
pub struct MessageInfoV {
    pub sender: Seq<char>,
    pub funds: Seq<CoinV>,
}

/// What the host tells the contract about a mutating call: who sent it and
/// which funds came attached to it.
#[derive(Debug)]
pub struct MessageInfo {
    pub sender: String,
    pub funds: Vec<Coin>,
}

impl View for MessageInfo {
    type V = MessageInfoV;

    open spec fn view(&self) -> MessageInfoV {
        MessageInfoV { sender: self.sender@, funds: self.funds.deep_view() }
    }
}

// ---------------------------------------------------------------------------
// Responses of the mutating operations
// ---------------------------------------------------------------------------
/// Spec-level image of a [`TransferMsg`].
#[verifier::ext_equal]
pub struct TransferV {
    pub to_address: Seq<char>,
    pub denom: Seq<char>,
    pub amount: u128,
}

/// A planned outbound payment: pay `amount` of `denom` to `to_address`.
/// The contract only emits the instruction; applying it is the host's job.
#[derive(Debug, PartialEq, Eq)]
pub struct TransferMsg {
    pub to_address: String,
    pub denom: String,
    pub amount: u128,
}

impl View for TransferMsg {
    type V = TransferV;

    open spec fn view(&self) -> TransferV {
        TransferV { to_address: self.to_address@, denom: self.denom@, amount: self.amount }
    }
}

impl DeepView for TransferMsg {
    type V = TransferV;

    open spec fn deep_view(&self) -> TransferV {
        self.view()
    }
}

/// Spec-level image of an [`Attribute`].
#[verifier::ext_equal]
pub struct AttributeV {
    pub key: Seq<char>,
    pub value: Seq<char>,
}

/// One key/value pair of response metadata.
#[derive(Debug, PartialEq, Eq)]
pub struct Attribute {
    pub key: String,
    pub value: String,
}

impl View for Attribute {
    type V = AttributeV;

    open spec fn view(&self) -> AttributeV {
        AttributeV { key: self.key@, value: self.value@ }
    }
}

impl DeepView for Attribute {
    type V = AttributeV;

    open spec fn deep_view(&self) -> AttributeV {
        self.view()
    }
}

/// Spec-level image of a [`Response`].
#[verifier::ext_equal]
pub struct ResponseV {
    pub messages: Seq<TransferV>,
    pub attributes: Seq<AttributeV>,
}

/// What a successful mutating operation hands back to the host: the transfer
/// instructions to apply and the metadata describing what happened.
#[derive(Debug)]
pub struct Response {
    pub messages: Vec<TransferMsg>,
    pub attributes: Vec<Attribute>,
}

impl View for Response {
    type V = ResponseV;

    open spec fn view(&self) -> ResponseV {
        ResponseV { messages: self.messages.deep_view(), attributes: self.attributes.deep_view() }
    }
}

// ---------------------------------------------------------------------------
// Requests
// ---------------------------------------------------------------------------
/// The creation request; it carries nothing.
#[derive(Debug, PartialEq, Eq)]
pub struct InstantiateMsg {}

/// Spec-level image of an [`ExecuteMsg`].
pub enum ExecuteMsgV {
    InitiateAgreement {
        initiator_token: TokenInfoV,
        counterparty_token: TokenInfoV,
        counterparty: Seq<char>,
    },
    AcceptAgreement { id: u64 },
    ExecuteAgreement { id: u64 },
    CancelAgreement { id: u64 },
}

/// One of the four mutating commands.
#[derive(Debug)]
pub enum ExecuteMsg {
    InitiateAgreement {
        initiator_token: TokenInfo,
        counterparty_token: TokenInfo,
        counterparty: String,
    },
    AcceptAgreement { id: u64 },
    ExecuteAgreement { id: u64 },
    CancelAgreement { id: u64 },
}

impl View for ExecuteMsg {
    type V = ExecuteMsgV;

    open spec fn view(&self) -> ExecuteMsgV {
        match self {
            ExecuteMsg::InitiateAgreement { initiator_token, counterparty_token, counterparty } => {
                ExecuteMsgV::InitiateAgreement {
                    initiator_token: initiator_token@,
                    counterparty_token: counterparty_token@,
                    counterparty: counterparty@,
                }
            },
            ExecuteMsg::AcceptAgreement { id } => ExecuteMsgV::AcceptAgreement { id: *id },
            ExecuteMsg::ExecuteAgreement { id } => ExecuteMsgV::ExecuteAgreement { id: *id },
            ExecuteMsg::CancelAgreement { id } => ExecuteMsgV::CancelAgreement { id: *id },
        }
    }
}

/// Spec-level image of a [`QueryMsg`].
pub enum QueryMsgV {
    GetAgreement { id: u64 },
    GetTotalAgreementCount,
    GetInitiatedAgreementCount,
    GetAcceptedAgreementCount,
    GetExecutedAgreementCount,
    GetCanceledAgreementCount,
    GetAgreementsByInitiator { initiator: Seq<char>, page: u64, page_size: u64 },
    GetAgreementsByCounterparty { counterparty: Seq<char>, page: u64, page_size: u64 },
    GetAgreementsByStatus { status: AgreementStatus, page: u64, page_size: u64 },
}

/// One of the read-only queries.
#[derive(Debug)]
pub enum QueryMsg {
    GetAgreement { id: u64 },
    GetTotalAgreementCount,
    GetInitiatedAgreementCount,
    GetAcceptedAgreementCount,
    GetExecutedAgreementCount,
    GetCanceledAgreementCount,
    GetAgreementsByInitiator { initiator: String, page: u64, page_size: u64 },
    GetAgreementsByCounterparty { counterparty: String, page: u64, page_size: u64 },
    GetAgreementsByStatus { status: AgreementStatus, page: u64, page_size: u64 },
}

impl View for QueryMsg {
    type V = QueryMsgV;

    open spec fn view(&self) -> QueryMsgV {
        match self {
            QueryMsg::GetAgreement { id } => QueryMsgV::GetAgreement { id: *id },
            QueryMsg::GetTotalAgreementCount => QueryMsgV::GetTotalAgreementCount,
            QueryMsg::GetInitiatedAgreementCount => QueryMsgV::GetInitiatedAgreementCount,
            QueryMsg::GetAcceptedAgreementCount => QueryMsgV::GetAcceptedAgreementCount,
            QueryMsg::GetExecutedAgreementCount => QueryMsgV::GetExecutedAgreementCount,
            QueryMsg::GetCanceledAgreementCount => QueryMsgV::GetCanceledAgreementCount,
            QueryMsg::GetAgreementsByInitiator { initiator, page, page_size } => {
                QueryMsgV::GetAgreementsByInitiator {
                    initiator: initiator@,
                    page: *page,
                    page_size: *page_size,
                }
            },
            QueryMsg::GetAgreementsByCounterparty { counterparty, page, page_size } => {
                QueryMsgV::GetAgreementsByCounterparty {
                    counterparty: counterparty@,
                    page: *page,
                    page_size: *page_size,
                }
            },
            QueryMsg::GetAgreementsByStatus { status, page, page_size } => {
                QueryMsgV::GetAgreementsByStatus {
                    status: *status,
                    page: *page,
                    page_size: *page_size,
                }
            },
        }
    }
}

// ---------------------------------------------------------------------------
// Query responses
// ---------------------------------------------------------------------------
/// The answer to [`QueryMsg::GetAgreement`].
#[derive(Debug, PartialEq, Eq)]
pub struct AgreementResponse {
    pub agreement: Agreement,
}

impl View for AgreementResponse {
    type V = AgreementV;

    open spec fn view(&self) -> AgreementV {
        self.agreement@
    }
}

/// The answer to [`QueryMsg::GetTotalAgreementCount`].
#[derive(Clone, Copy, Debug, PartialEq, Eq, Structural)]
pub struct TotalAgreementCountResponse {
    pub total_agreement_count: u64,
}

/// The answer to [`QueryMsg::GetInitiatedAgreementCount`].
#[derive(Clone, Copy, Debug, PartialEq, Eq, Structural)]
pub struct InitiatedAgreementCountResponse {
    pub initiated_agreement_count: u64,
}

/// The answer to [`QueryMsg::GetAcceptedAgreementCount`].
#[derive(Clone, Copy, Debug, PartialEq, Eq, Structural)]
pub struct AcceptedAgreementCountResponse {
    pub accepted_agreement_count: u64,
}

/// The answer to [`QueryMsg::GetExecutedAgreementCount`].
#[derive(Clone, Copy, Debug, PartialEq, Eq, Structural)]
pub struct ExecutedAgreementCountResponse {
    pub executed_agreement_count: u64,
}

/// The answer to [`QueryMsg::GetCanceledAgreementCount`].
#[derive(Clone, Copy, Debug, PartialEq, Eq, Structural)]
pub struct CanceledAgreementCountResponse {
    pub canceled_agreement_count: u64,
}

/// The answer to the three filtered queries: the matching agreements in
/// ascending id order.
#[derive(Debug, PartialEq, Eq)]
pub struct AgreementsResponse {
    pub agreements: Vec<Agreement>,
}

impl View for AgreementsResponse {
    type V = Seq<AgreementV>;

    open spec fn view(&self) -> Seq<AgreementV> {
        self.agreements.deep_view()
    }
}

/// Spec-level image of a [`QueryAnswer`].
pub enum QueryAnswerV {
    Agreement { agreement: AgreementV },
    TotalAgreementCount { count: u64 },
    InitiatedAgreementCount { count: u64 },
    AcceptedAgreementCount { count: u64 },
    ExecutedAgreementCount { count: u64 },
    CanceledAgreementCount { count: u64 },
    Agreements { agreements: Seq<AgreementV> },
}

/// The answer to a [`QueryMsg`], one variant per query kind.
#[derive(Debug)]
pub enum QueryAnswer {
    Agreement(AgreementResponse),
    TotalAgreementCount(TotalAgreementCountResponse),
    InitiatedAgreementCount(InitiatedAgreementCountResponse),
    AcceptedAgreementCount(AcceptedAgreementCountResponse),
    ExecutedAgreementCount(ExecutedAgreementCountResponse),
    CanceledAgreementCount(CanceledAgreementCountResponse),
    Agreements(AgreementsResponse),
}

impl View for QueryAnswer {
    type V = QueryAnswerV;

    open spec fn view(&self) -> QueryAnswerV {
        match self {
            QueryAnswer::Agreement(r) => QueryAnswerV::Agreement { agreement: r@ },
            QueryAnswer::TotalAgreementCount(r) => QueryAnswerV::TotalAgreementCount {
                count: r.total_agreement_count,
            },
            QueryAnswer::InitiatedAgreementCount(r) => QueryAnswerV::InitiatedAgreementCount {
                count: r.initiated_agreement_count,
            },
            QueryAnswer::AcceptedAgreementCount(r) => QueryAnswerV::AcceptedAgreementCount {
                count: r.accepted_agreement_count,
            },
            QueryAnswer::ExecutedAgreementCount(r) => QueryAnswerV::ExecutedAgreementCount {
                count: r.executed_agreement_count,
            },
            QueryAnswer::CanceledAgreementCount(r) => QueryAnswerV::CanceledAgreementCount {
                count: r.canceled_agreement_count,
            },
            QueryAnswer::Agreements(r) => QueryAnswerV::Agreements { agreements: r@ },
        }
    }
}

} // verus!
