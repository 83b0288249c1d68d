//! What passes between the provider and its host while a request is handled.
//!
//! The provider decides; the host acts. Handling a request, the provider hands out
//! an [`Action`] for everything that needs the persistence engine, the key store,
//! a chain node, the network or the user, and takes the [`Event`] that tells how
//! it went. Between the two it keeps what it will need in a [`Pending`]. No
//! action waits while a transaction is open: each action that touches the
//! persistence engine is one transaction of its own.

use crate::chain::ChainId;
use crate::encoding::{all_lower_hex, is_lower_hex};
use crate::error::{Error, ErrorView};
use crate::ethereum::{TransactionRequest, TransactionRequestView};
use crate::json::{text_view, JsonValue, JsonValueView, Request, RequestView};
use crate::methods::{is_proxied, is_proxied_rpc_method};
use crate::session::{
    bytes_view, ApprovalSubject, ApprovalSubjectView, DappApprovalParams, DappApprovalParamsView,
    LocalDappSession, LocalDappSessionView,
};
use vstd::prelude::*;

verus! {

/// What the host is to do next.
#[derive(Debug, Clone, PartialEq, Eq)]
pub enum Action {
    /// In one atomic transaction: look up the active account, then the dapp's
    /// record under it; if there is one, fetch the dapp's session or create it.
    ResolveSession,
    /// Fetch the dapp's favicon over the network.
    FetchFavicon,
    /// Read the active account and the dapp's identifier.
    FetchApprovalSubject,
    /// Ask the user whether the dapp may be added to the account. This may block
    /// for as long as the user takes.
    ApproveDapp { dapp_approval: DappApprovalParams },
    /// In one atomic transaction: create the dapp's record unless it exists,
    /// create a key and an address on the chain under the account, and create the
    /// session.
    AddNewDapp { account_id: String, chain_id: ChainId },
    /// Transfer the default allotment from the account's wallet to the session's
    /// address, in the background. This is best effort: the host logs a failure,
    /// and the request goes on all the same.
    TransferAllotment { session: LocalDappSession },
    /// Record that the session was used now.
    TouchSession { session: LocalDappSession },
    /// Push an event, hex-encoded, to the page.
    Notify { event_hex: String },
    /// Look that the signing key of an address can be fetched from the key store,
    /// and tell the chain that it is a key of. The key is not kept.
    FetchSigningKey { address_id: String },
    /// Fetch the signing key of the address, sign the transaction with it, and
    /// send it to a node of the chain.
    SendTransaction { address_id: String, chain_id: ChainId, transaction: TransactionRequest },
    /// Fetch the signing key of the address and sign the message with it.
    PersonalSign { address_id: String, message: Vec<u8> },
    /// In one atomic transaction: find or create the address of the session's key
    /// on the chain, and bind the session to it.
    SwitchChain { session: LocalDappSession, chain_id: ChainId },
    /// Hand the call on to a node of the chain as it is.
    Proxy { chain_id: ChainId, method: String, params: Option<String> },
}

pub enum ActionView {
    ResolveSession,
    FetchFavicon,
    FetchApprovalSubject,
    ApproveDapp { dapp_approval: DappApprovalParamsView },
    AddNewDapp { account_id: Seq<char>, chain_id: ChainId },
    TransferAllotment { session: LocalDappSessionView },
    TouchSession { session: LocalDappSessionView },
    Notify { event_hex: Seq<char> },
    FetchSigningKey { address_id: Seq<char> },
    SendTransaction { address_id: Seq<char>, chain_id: ChainId, transaction: TransactionRequestView },
    PersonalSign { address_id: Seq<char>, message: Seq<u8> },
    SwitchChain { session: LocalDappSessionView, chain_id: ChainId },
    Proxy { chain_id: ChainId, method: Seq<char>, params: Option<Seq<char>> },
}

impl View for Action {
    type V = ActionView;

    open spec fn view(&self) -> ActionView {
        match self {
            Action::ResolveSession => ActionView::ResolveSession,
            Action::FetchFavicon => ActionView::FetchFavicon,
            Action::FetchApprovalSubject => ActionView::FetchApprovalSubject,
            Action::ApproveDapp { dapp_approval } => ActionView::ApproveDapp {
                dapp_approval: dapp_approval@,
            },
            Action::AddNewDapp { account_id, chain_id } => ActionView::AddNewDapp {
                account_id: account_id@,
                chain_id: *chain_id,
            },
            Action::TransferAllotment { session } => ActionView::TransferAllotment { session: session@ },
            Action::TouchSession { session } => ActionView::TouchSession { session: session@ },
            Action::Notify { event_hex } => ActionView::Notify { event_hex: event_hex@ },
            Action::FetchSigningKey { address_id } => ActionView::FetchSigningKey {
                address_id: address_id@,
            },
            Action::SendTransaction { address_id, chain_id, transaction } => ActionView::SendTransaction {
                address_id: address_id@,
                chain_id: *chain_id,
                transaction: transaction@,
            },
            Action::PersonalSign { address_id, message } => ActionView::PersonalSign {
                address_id: address_id@,
                message: message@,
            },
            Action::SwitchChain { session, chain_id } => ActionView::SwitchChain {
                session: session@,
                chain_id: *chain_id,
            },
            Action::Proxy { chain_id, method, params } => ActionView::Proxy {
                chain_id: *chain_id,
                method: method@,
                params: text_view(*params),
            },
        }
    }
}

impl ActionView {
    /// What holds of every action that the provider hands out: an event goes to
    /// the page as lower-case hex and nothing else, only a method on the
    /// allow-list is handed on to a node, and a transaction is sent without a
    /// nonce of the dapp's.
    pub open spec fn is_safe(self) -> bool {
        match self {
            ActionView::Notify { event_hex } => all_lower_hex(event_hex),
            ActionView::Proxy { method, .. } => is_proxied(method),
            ActionView::SendTransaction { transaction, .. } => transaction.nonce is None,
            _ => true,
        }
    }

    /// The actions that bring a new dapp into an account: asking the user, adding
    /// the dapp, and funding its address.
    pub open spec fn adds_dapp(self) -> bool {
        self is ApproveDapp || self is AddNewDapp || self is TransferAllotment
    }
}

impl Action {
    /// Whether the action is one that the provider hands out: see
    /// [`ActionView::is_safe`]. A host that takes actions from anywhere else asks
    /// this first.
    pub fn is_safe(&self) -> (safe: bool)
        ensures
            safe == self@.is_safe(),
    {
        match self {
            Action::Notify { event_hex } => is_lower_hex(event_hex.as_str()),
            Action::Proxy { method, .. } => is_proxied_rpc_method(method.as_str()),
            Action::SendTransaction { transaction, .. } => transaction.nonce.is_none(),
            _ => true,
        }
    }
}

/// How an action went.
#[derive(Debug, PartialEq, Eq)]
pub enum Event {
    /// The session of the dapp under the active account; none where the account
    /// has no record of the dapp.
    SessionResolved(Result<Option<LocalDappSession>, Error>),
    FaviconFetched(Result<Option<Vec<u8>>, Error>),
    ApprovalSubjectFetched(Result<ApprovalSubject, Error>),
    /// Whether the user approved.
    DappApproval(bool),
    /// The session that was created with the dapp.
    DappAdded(Result<LocalDappSession, Error>),
    /// The funding is under way, or could not be started. The outcome is for the
    /// host's log; the provider does not read it.
    AllotmentScheduled(Result<(), Error>),
    SessionTouched(Result<(), Error>),
    /// The event was handed to the page.
    Notified,
    /// The key can be fetched; it is a key of this chain.
    SigningKeyFetched(Result<ChainId, Error>),
    /// The hash of the transaction that was sent, as text.
    TransactionSent(Result<String, Error>),
    /// The signature, as text.
    Signed(Result<String, Error>),
    ChainSwitched(Result<(), Error>),
    /// The node's answer, as JSON text.
    Proxied(Result<String, Error>),
}

pub enum EventView {
    SessionResolved(Result<Option<LocalDappSessionView>, ErrorView>),
    FaviconFetched(Result<Option<Seq<u8>>, ErrorView>),
    ApprovalSubjectFetched(Result<ApprovalSubjectView, ErrorView>),
    DappApproval(bool),
    DappAdded(Result<LocalDappSessionView, ErrorView>),
    AllotmentScheduled(Result<(), ErrorView>),
    SessionTouched(Result<(), ErrorView>),
    Notified,
    SigningKeyFetched(Result<ChainId, ErrorView>),
    TransactionSent(Result<Seq<char>, ErrorView>),
    Signed(Result<Seq<char>, ErrorView>),
    ChainSwitched(Result<(), ErrorView>),
    Proxied(Result<Seq<char>, ErrorView>),
}

pub open spec fn session_view(session: Option<LocalDappSession>) -> Option<LocalDappSessionView> {
    match session {
        Some(session) => Some(session@),
        None => None,
    }
}

pub open spec fn unit_result_view(result: Result<(), Error>) -> Result<(), ErrorView> {
    match result {
        Ok(_) => Ok(()),
        Err(error) => Err(error@),
    }
}

pub open spec fn text_result_view(result: Result<String, Error>) -> Result<Seq<char>, ErrorView> {
    match result {
        Ok(text) => Ok(text@),
        Err(error) => Err(error@),
    }
}

impl View for Event {
    type V = EventView;

    open spec fn view(&self) -> EventView {
        match self {
            Event::SessionResolved(result) => EventView::SessionResolved(
                match result {
                    Ok(session) => Ok(session_view(*session)),
                    Err(error) => Err(error@),
                },
            ),
            Event::FaviconFetched(result) => EventView::FaviconFetched(
                match result {
                    Ok(favicon) => Ok(bytes_view(*favicon)),
                    Err(error) => Err(error@),
                },
            ),
            Event::ApprovalSubjectFetched(result) => EventView::ApprovalSubjectFetched(
                match result {
                    Ok(subject) => Ok(subject@),
                    Err(error) => Err(error@),
                },
            ),
            Event::DappApproval(approved) => EventView::DappApproval(*approved),
            Event::DappAdded(result) => EventView::DappAdded(
                match result {
                    Ok(session) => Ok(session@),
                    Err(error) => Err(error@),
                },
            ),
            Event::AllotmentScheduled(result) => EventView::AllotmentScheduled(unit_result_view(*result)),
            Event::SessionTouched(result) => EventView::SessionTouched(unit_result_view(*result)),
            Event::Notified => EventView::Notified,
            Event::SigningKeyFetched(result) => EventView::SigningKeyFetched(
                match result {
                    Ok(chain_id) => Ok(*chain_id),
                    Err(error) => Err(error@),
                },
            ),
            Event::TransactionSent(result) => EventView::TransactionSent(text_result_view(*result)),
            Event::Signed(result) => EventView::Signed(text_result_view(*result)),
            Event::ChainSwitched(result) => EventView::ChainSwitched(unit_result_view(*result)),
            Event::Proxied(result) => EventView::Proxied(text_result_view(*result)),
        }
    }
}

/// What a request waits for, and what the provider keeps for it meanwhile.
#[derive(Debug, Clone, PartialEq, Eq)]
pub enum Pending {
    /// For the session of the dapp.
    Session { request: Request },
    /// For the favicon, before the user is asked.
    Favicon { request: Request },
    /// For the account and the dapp's identifier, before the user is asked.
    ApprovalSubject { request: Request, favicon: Option<Vec<u8>> },
    /// For the user. The account is kept: the active account may change while
    /// the user decides.
    Approval { request: Request, account_id: String },
    /// For the dapp to be added.
    NewDapp { request: Request },
    /// For the funding of the new address to be under way.
    Allotment { request: Request, session: LocalDappSession },
    /// For the session's last use to be recorded.
    Touch { request: Request, session: LocalDappSession },
    /// For the connect event to reach the page.
    ConnectNotice { request: Request, session: LocalDappSession },
    /// For the signing key with which to send a transaction.
    SigningKey { request: Request, session: LocalDappSession },
    /// For the transaction to be sent.
    Transaction { request: Request },
    /// For the signature.
    Signature { request: Request },
    /// For the session to be bound to the chain.
    ChainSwitch { request: Request, chain_id: ChainId },
    /// For `chainChanged` to reach the page; `networkChanged` comes after it.
    ChainNotice { request: Request, chain_id: ChainId },
    /// For `networkChanged` to reach the page.
    NetworkNotice { request: Request },
    /// For the answer of the node.
    ProxyReply { request: Request },
}

pub enum PendingView {
    Session { request: RequestView },
    Favicon { request: RequestView },
    ApprovalSubject { request: RequestView, favicon: Option<Seq<u8>> },
    Approval { request: RequestView, account_id: Seq<char> },
    NewDapp { request: RequestView },
    Allotment { request: RequestView, session: LocalDappSessionView },
    Touch { request: RequestView, session: LocalDappSessionView },
    ConnectNotice { request: RequestView, session: LocalDappSessionView },
    SigningKey { request: RequestView, session: LocalDappSessionView },
    Transaction { request: RequestView },
    Signature { request: RequestView },
    ChainSwitch { request: RequestView, chain_id: ChainId },
    ChainNotice { request: RequestView, chain_id: ChainId },
    NetworkNotice { request: RequestView },
    ProxyReply { request: RequestView },
}

impl View for Pending {
    type V = PendingView;

    open spec fn view(&self) -> PendingView {
        match self {
            Pending::Session { request } => PendingView::Session { request: request@ },
            Pending::Favicon { request } => PendingView::Favicon { request: request@ },
            Pending::ApprovalSubject { request, favicon } => PendingView::ApprovalSubject {
                request: request@,
                favicon: bytes_view(*favicon),
            },
            Pending::Approval { request, account_id } => PendingView::Approval {
                request: request@,
                account_id: account_id@,
            },
            Pending::NewDapp { request } => PendingView::NewDapp { request: request@ },
            Pending::Allotment { request, session } => PendingView::Allotment {
                request: request@,
                session: session@,
            },
            Pending::Touch { request, session } => PendingView::Touch {
                request: request@,
                session: session@,
            },
            Pending::ConnectNotice { request, session } => PendingView::ConnectNotice {
                request: request@,
                session: session@,
            },
            Pending::SigningKey { request, session } => PendingView::SigningKey {
                request: request@,
                session: session@,
            },
            Pending::Transaction { request } => PendingView::Transaction { request: request@ },
            Pending::Signature { request } => PendingView::Signature { request: request@ },
            Pending::ChainSwitch { request, chain_id } => PendingView::ChainSwitch {
                request: request@,
                chain_id: *chain_id,
            },
            Pending::ChainNotice { request, chain_id } => PendingView::ChainNotice {
                request: request@,
                chain_id: *chain_id,
            },
            Pending::NetworkNotice { request } => PendingView::NetworkNotice { request: request@ },
            Pending::ProxyReply { request } => PendingView::ProxyReply { request: request@ },
        }
    }
}

impl PendingView {
    /// The request that is being handled.
    pub open spec fn request(self) -> RequestView {
        match self {
            PendingView::Session { request } => request,
            PendingView::Favicon { request } => request,
            PendingView::ApprovalSubject { request, .. } => request,
            PendingView::Approval { request, .. } => request,
            PendingView::NewDapp { request } => request,
            PendingView::Allotment { request, .. } => request,
            PendingView::Touch { request, .. } => request,
            PendingView::ConnectNotice { request, .. } => request,
            PendingView::SigningKey { request, .. } => request,
            PendingView::Transaction { request } => request,
            PendingView::Signature { request } => request,
            PendingView::ChainSwitch { request, .. } => request,
            PendingView::ChainNotice { request, .. } => request,
            PendingView::NetworkNotice { request } => request,
            PendingView::ProxyReply { request } => request,
        }
    }
}

/// How far a method got: it waits for the host, or it has its result.
#[derive(Debug, PartialEq, Eq)]
pub enum Progress {
    Wait { pending: Pending, action: Action },
    Done { request: Request, result: Result<JsonValue, Error> },
}

pub enum ProgressView {
    Wait { pending: PendingView, action: ActionView },
    Done { request: RequestView, result: Result<JsonValueView, ErrorView> },
}

pub open spec fn value_result_view(result: Result<JsonValue, Error>) -> Result<JsonValueView, ErrorView> {
    match result {
        Ok(value) => Ok(value@),
        Err(error) => Err(error@),
    }
}

impl View for Progress {
    type V = ProgressView;

    open spec fn view(&self) -> ProgressView {
        match self {
            Progress::Wait { pending, action } => ProgressView::Wait { pending: pending@, action: action@ },
            Progress::Done { request, result } => ProgressView::Done {
                request: request@,
                result: value_result_view(*result),
            },
        }
    }
}

/// How far a request got: the host is to act, or the request is answered.
#[derive(Debug, PartialEq, Eq)]
pub enum Step {
    Proceed { pending: Pending, action: Action },
    /// The hex of the JSON-RPC response, or the failure of a request that has no
    /// response.
    Finish { response: Result<String, Error> },
}

pub enum StepView {
    Proceed { pending: PendingView, action: ActionView },
    Finish { response: Result<Seq<char>, ErrorView> },
}

impl View for Step {
    type V = StepView;

    open spec fn view(&self) -> StepView {
        match self {
            Step::Proceed { pending, action } => StepView::Proceed { pending: pending@, action: action@ },
            Step::Finish { response } => StepView::Finish { response: text_result_view(*response) },
        }
    }
}

} // verus!
