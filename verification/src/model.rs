//! What the dispatcher does, stated as functions on plain values: which step
//! follows a request, and which step follows each report of the host.
//!
//! [`crate::provider`] computes these functions, and the laws of
//! [`crate::laws`] are proved of them.

use crate::chain::{parse_chain_id, ChainId};
use crate::config::{MAX_JSONRPC_REQUEST_SIZE_BYTES, MAX_JSONRPC_RESPONSE_SIZE_BYTES};
use crate::encoding::{decode_0x_hex, hex_encode, hex_of_text};
use crate::error::{
    code_error, invalid_params, invalid_raw_request_error, serialization_error, ErrorCode,
    ErrorView, InPageErrorCode,
};
use crate::ethereum::{address_of_text, keccak256_of, transaction_param_of};
use crate::json::{
    error_response_text, is_writable, json_text_of, parsed_request, success_response_text,
    JsonValueView, RequestIdView, RequestView,
};
use crate::methods::{is_proxied, method_of, Method};
use crate::params::{
    first_object_param, first_string_param, member_of, second_address_param,
    third_optional_string_param,
};
use crate::notification::{
    chain_changed_notification, connect_notification, network_changed_notification,
};
use crate::protocol::{ActionView, EventView, PendingView, ProgressView, StepView};
use crate::session::{DappApprovalParamsView, LocalDappSessionView};
use vstd::prelude::*;
use vstd::string::*;

verus! {

/// Whether a request is over the ceiling. Its size is that of its UTF-8 bytes.
pub open spec fn request_too_large(raw: Seq<char>) -> bool {
    vstd::utf8::encode_utf8(raw).len() > MAX_JSONRPC_REQUEST_SIZE_BYTES
}

/// The request that a text holds. A text over the ceiling holds none, whatever
/// parsing it would give.
pub open spec fn read_request(raw: Seq<char>) -> Result<RequestView, ErrorView> {
    if request_too_large(raw) {
        Err(invalid_raw_request_error())
    } else {
        match parsed_request(raw) {
            Some(request) => Ok(request),
            None => Err(invalid_raw_request_error()),
        }
    }
}

/// The response to a request: the hex of a JSON-RPC response for a result and
/// for a protocol error alike, and the error itself for any other error.
pub open spec fn response_for(id: RequestIdView, result: Result<JsonValueView, ErrorView>) -> Result<
    Seq<char>,
    ErrorView,
> {
    match result {
        Ok(value) => match json_text_of(value) {
            None => Err(serialization_error()),
            Some(json) => match success_response_text(id, json, MAX_JSONRPC_RESPONSE_SIZE_BYTES) {
                Some(response) => Ok(hex_of_text(response)),
                None => Err(serialization_error()),
            },
        },
        Err(ErrorView::JsonRpc { code, message }) => Ok(
            hex_of_text(error_response_text(id, code.spec_code() as int, message)),
        ),
        Err(error) => Err(error),
    }
}

/// The error for a method that is neither the wallet's own nor on the
/// allow-list. EIP-1193 asks for code 4200.
pub open spec fn unsupported_method_error(method: Seq<char>) -> ErrorView {
    ErrorView::JsonRpc {
        code: ErrorCode::ServerError(4200),
        message: "This method is not supported: '"@ + method + "'"@,
    }
}

pub open spec fn unexpected_event_error() -> ErrorView {
    ErrorView::Fatal { error: "Unexpected event"@ }
}

pub open spec fn invalid_session_address_error() -> ErrorView {
    ErrorView::Fatal { error: "Invalid address in session"@ }
}

pub open spec fn missing_chain_id_error() -> ErrorView {
    invalid_params("missing field `chainId`"@)
}

pub open spec fn chain_id_type_error() -> ErrorView {
    invalid_params("invalid type for field `chainId`, expected a string"@)
}

pub open spec fn done(request: RequestView, result: Result<JsonValueView, ErrorView>) -> ProgressView {
    ProgressView::Done { request, result }
}

/// `eth_chainId`: the chain of the session as a hex quantity.
pub open spec fn chain_id_result(session: LocalDappSessionView) -> Result<JsonValueView, ErrorView> {
    Ok(JsonValueView::Text(session.chain_id.hex_text()))
}

/// `web3_sha3`: the Keccak-256 hash of the bytes that the first parameter stands
/// for, as `0x` and hex.
pub open spec fn sha3_result(params: Option<Seq<char>>) -> Result<JsonValueView, ErrorView> {
    match first_string_param(params) {
        Err(message) => Err(invalid_params(message)),
        Ok(text) => match decode_0x_hex(text) {
            Err(error) => Err(error),
            Ok(bytes) => Ok(JsonValueView::Text("0x"@ + hex_encode(keccak256_of(bytes)))),
        },
    }
}

/// The chain that the first parameter, an object, names under `chainId`.
pub open spec fn chain_param(params: Option<Seq<char>>) -> Result<ChainId, ErrorView> {
    match first_object_param(params) {
        Err(refusal) => Err(invalid_params(refusal)),
        Ok(members) => match member_of(members, "chainId"@) {
            None => Err(missing_chain_id_error()),
            Some(None) => Err(chain_id_type_error()),
            Some(Some(text)) => parse_chain_id(text),
        },
    }
}

/// `wallet_addEthereumChain`: nothing is added. A supported chain is there
/// already; any other chain is refused.
pub open spec fn add_chain_result(params: Option<Seq<char>>) -> Result<JsonValueView, ErrorView> {
    match chain_param(params) {
        Ok(_) => Ok(JsonValueView::Null),
        Err(error) => Err(error),
    }
}

/// What `personal_sign` decides of what it read. The message must be
/// `0x`-prefixed hex; the address must be the session's, byte for byte; and the
/// password, which is ignored, must have been a string if it was there. Of
/// several faults the first in this order is reported.
pub open spec fn sign_decision(
    message: Result<Seq<char>, Seq<char>>,
    bound: Option<Seq<u8>>,
    address: Result<Seq<u8>, Seq<char>>,
    password: Result<Option<Seq<char>>, Seq<char>>,
) -> Result<Seq<u8>, ErrorView> {
    match message {
        Err(refusal) => Err(invalid_params(refusal)),
        Ok(text) => match decode_0x_hex(text) {
            Err(error) => Err(error),
            Ok(bytes) => match bound {
                None => Err(invalid_session_address_error()),
                Some(bound) => match address {
                    Err(refusal) => Err(invalid_params(refusal)),
                    Ok(address) => if address != bound {
                        Err(invalid_params("Invalid address"@))
                    } else {
                        match password {
                            Err(refusal) => Err(invalid_params(refusal)),
                            Ok(_) => Ok(bytes),
                        }
                    },
                },
            },
        },
    }
}

/// The message that `personal_sign` is to sign. The parameters are read in
/// order: the message, the address, and a password that may be missing.
pub open spec fn personal_sign_message(params: Option<Seq<char>>, session: LocalDappSessionView) -> Result<
    Seq<u8>,
    ErrorView,
> {
    sign_decision(
        first_string_param(params),
        address_of_text(session.address),
        second_address_param(params),
        third_optional_string_param(params),
    )
}

/// Whether the first parameter is a string of `0x`-prefixed hex.
pub open spec fn first_string_param_decodes(params: Option<Seq<char>>) -> bool {
    first_string_param(params) matches Ok(text) && decode_0x_hex(text) is Ok
}

/// What follows when the dapp has a session and asks for its accounts: the
/// session's use is recorded, and nobody is asked anything.
pub open spec fn accounts_progress(request: RequestView, session: LocalDappSessionView) -> ProgressView {
    ProgressView::Wait { pending: PendingView::Touch { request, session }, action: ActionView::TouchSession { session } }
}

/// `eth_requestAccounts` and `eth_accounts`: with a session, its address is
/// given out; without one, the approval begins, with the favicon.
pub open spec fn request_accounts_progress(
    request: RequestView,
    maybe_session: Option<LocalDappSessionView>,
) -> ProgressView {
    match maybe_session {
        Some(session) => accounts_progress(request, session),
        None => ProgressView::Wait {
            pending: PendingView::Favicon { request },
            action: ActionView::FetchFavicon,
        },
    }
}

/// Any method that is not the wallet's own: handed on if it is on the
/// allow-list, refused if it is not.
pub open spec fn proxy_progress(request: RequestView, session: LocalDappSessionView) -> ProgressView {
    if is_proxied(request.method) {
        ProgressView::Wait {
            pending: PendingView::ProxyReply { request },
            action: ActionView::Proxy {
                chain_id: session.chain_id,
                method: request.method,
                params: request.params,
            },
        }
    } else {
        done(request, Err(unsupported_method_error(request.method)))
    }
}

/// The methods that need a session, when there is one.
pub open spec fn authorized_progress(request: RequestView, session: LocalDappSessionView) -> ProgressView {
    match method_of(request.method) {
        Method::ChainId => done(request, chain_id_result(session)),
        Method::SendTransaction => ProgressView::Wait {
            pending: PendingView::SigningKey { request, session },
            action: ActionView::FetchSigningKey { address_id: session.address_id },
        },
        Method::PersonalSign => match personal_sign_message(request.params, session) {
            Ok(message) => ProgressView::Wait {
                pending: PendingView::Signature { request },
                action: ActionView::PersonalSign { address_id: session.address_id, message },
            },
            Err(error) => done(request, Err(error)),
        },
        Method::AddEthereumChain => done(request, add_chain_result(request.params)),
        Method::SwitchEthereumChain => match chain_param(request.params) {
            Ok(chain_id) => ProgressView::Wait {
                pending: PendingView::ChainSwitch { request, chain_id },
                action: ActionView::SwitchChain { session, chain_id },
            },
            Err(error) => done(request, Err(error)),
        },
        Method::ClientVersion => done(request, Ok(JsonValueView::Text("SealVault"@))),
        Method::Sha3 => done(request, sha3_result(request.params)),
        _ => proxy_progress(request, session),
    }
}

/// The routing of a request, once it is known whether the dapp has a session.
pub open spec fn dispatch_progress(request: RequestView, maybe_session: Option<LocalDappSessionView>) -> ProgressView {
    if method_of(request.method).spec_is_bootstrap() {
        request_accounts_progress(request, maybe_session)
    } else {
        match maybe_session {
            Some(session) => authorized_progress(request, session),
            None => done(request, Err(code_error(InPageErrorCode::Unauthorized))),
        }
    }
}

/// What follows once the user has answered.
pub open spec fn approval_progress(request: RequestView, account_id: Seq<char>, approved: bool) -> ProgressView {
    if approved {
        ProgressView::Wait {
            pending: PendingView::NewDapp { request },
            action: ActionView::AddNewDapp { account_id, chain_id: ChainId::default_dapp_chain() },
        }
    } else {
        done(request, Err(code_error(InPageErrorCode::UserRejected)))
    }
}

/// What follows once the signing key for a transaction is there: the one
/// transaction in the parameters is sent, without a nonce.
pub open spec fn send_transaction_progress(
    request: RequestView,
    session: LocalDappSessionView,
    chain_id: ChainId,
) -> ProgressView {
    match transaction_param_of(request.params) {
        Some(transaction) => ProgressView::Wait {
            pending: PendingView::Transaction { request },
            action: ActionView::SendTransaction {
                address_id: session.address_id,
                chain_id,
                transaction: transaction.without_nonce(),
            },
        },
        None => done(request, Err(code_error(InPageErrorCode::InvalidParams))),
    }
}

/// What follows once an event is ready: it goes to the page, or its failure
/// ends the request.
pub open spec fn notice_progress(
    request: RequestView,
    pending: PendingView,
    event_hex: Result<Seq<char>, ErrorView>,
) -> ProgressView {
    match event_hex {
        Ok(event_hex) => ProgressView::Wait { pending, action: ActionView::Notify { event_hex } },
        Err(error) => done(request, Err(error)),
    }
}

/// How a request goes on when the host reports how an action went. A failure
/// of the host ends the request with that failure. An event that does not
/// answer the action that was handed out is a defect of the host.
pub open spec fn next_progress(pending: PendingView, event: EventView) -> ProgressView {
    match pending {
        PendingView::Session { request } => match event {
            EventView::SessionResolved(Ok(maybe_session)) => dispatch_progress(request, maybe_session),
            EventView::SessionResolved(Err(error)) => done(request, Err(error)),
            _ => done(request, Err(unexpected_event_error())),
        },
        PendingView::Favicon { request } => match event {
            EventView::FaviconFetched(Ok(favicon)) => ProgressView::Wait {
                pending: PendingView::ApprovalSubject { request, favicon },
                action: ActionView::FetchApprovalSubject,
            },
            EventView::FaviconFetched(Err(error)) => done(request, Err(error)),
            _ => done(request, Err(unexpected_event_error())),
        },
        PendingView::ApprovalSubject { request, favicon } => match event {
            EventView::ApprovalSubjectFetched(Ok(subject)) => ProgressView::Wait {
                pending: PendingView::Approval { request, account_id: subject.account_id },
                action: ActionView::ApproveDapp {
                    dapp_approval: DappApprovalParamsView {
                        account_id: subject.account_id,
                        dapp_identifier: subject.dapp_identifier,
                        favicon,
                    },
                },
            },
            EventView::ApprovalSubjectFetched(Err(error)) => done(request, Err(error)),
            _ => done(request, Err(unexpected_event_error())),
        },
        PendingView::Approval { request, account_id } => match event {
            EventView::DappApproval(approved) => approval_progress(request, account_id, approved),
            _ => done(request, Err(unexpected_event_error())),
        },
        PendingView::NewDapp { request } => match event {
            EventView::DappAdded(Ok(session)) => ProgressView::Wait {
                pending: PendingView::Allotment { request, session },
                action: ActionView::TransferAllotment { session },
            },
            EventView::DappAdded(Err(error)) => done(request, Err(error)),
            _ => done(request, Err(unexpected_event_error())),
        },
        PendingView::Allotment { request, session } => match event {
            // Funding is best effort: however it went, the dapp stays connected.
            EventView::AllotmentScheduled(_) => accounts_progress(request, session),
            _ => done(request, Err(unexpected_event_error())),
        },
        PendingView::Touch { request, session } => match event {
            EventView::SessionTouched(Ok(_)) => notice_progress(
                request,
                PendingView::ConnectNotice { request, session },
                connect_notification(session.chain_id, session.address),
            ),
            EventView::SessionTouched(Err(error)) => done(request, Err(error)),
            _ => done(request, Err(unexpected_event_error())),
        },
        PendingView::ConnectNotice { request, session } => match event {
            EventView::Notified => done(request, Ok(JsonValueView::TextList(seq![session.address]))),
            _ => done(request, Err(unexpected_event_error())),
        },
        PendingView::SigningKey { request, session } => match event {
            EventView::SigningKeyFetched(Ok(chain_id)) => send_transaction_progress(
                request,
                session,
                chain_id,
            ),
            EventView::SigningKeyFetched(Err(error)) => done(request, Err(error)),
            _ => done(request, Err(unexpected_event_error())),
        },
        PendingView::Transaction { request } => match event {
            EventView::TransactionSent(Ok(hash)) => done(request, Ok(JsonValueView::Text(hash))),
            EventView::TransactionSent(Err(error)) => done(request, Err(error)),
            _ => done(request, Err(unexpected_event_error())),
        },
        PendingView::Signature { request } => match event {
            EventView::Signed(Ok(signature)) => done(request, Ok(JsonValueView::Text(signature))),
            EventView::Signed(Err(error)) => done(request, Err(error)),
            _ => done(request, Err(unexpected_event_error())),
        },
        PendingView::ChainSwitch { request, chain_id } => match event {
            EventView::ChainSwitched(Ok(_)) => notice_progress(
                request,
                PendingView::ChainNotice { request, chain_id },
                chain_changed_notification(chain_id),
            ),
            EventView::ChainSwitched(Err(error)) => done(request, Err(error)),
            _ => done(request, Err(unexpected_event_error())),
        },
        PendingView::ChainNotice { request, chain_id } => match event {
            EventView::Notified => notice_progress(
                request,
                PendingView::NetworkNotice { request },
                network_changed_notification(chain_id),
            ),
            _ => done(request, Err(unexpected_event_error())),
        },
        PendingView::NetworkNotice { request } => match event {
            EventView::Notified => done(request, Ok(JsonValueView::Null)),
            _ => done(request, Err(unexpected_event_error())),
        },
        PendingView::ProxyReply { request } => match event {
            EventView::Proxied(Ok(json)) => done(request, Ok(JsonValueView::Raw(json))),
            EventView::Proxied(Err(error)) => done(request, Err(error)),
            _ => done(request, Err(unexpected_event_error())),
        },
    }
}

/// Whether an event is due to the page after this report: the connect event once
/// the session's use is recorded, `chainChanged` once the session is bound to
/// the chain, and `networkChanged` once `chainChanged` is out.
pub open spec fn notice_is_due(pending: PendingView, event: EventView) -> bool {
    ||| pending is Touch && event matches EventView::SessionTouched(Ok(_))
    ||| pending is ChainSwitch && event matches EventView::ChainSwitched(Ok(_))
    ||| pending is ChainNotice && event is Notified
}

/// Whether a method is done with a result that the provider wrote itself: such
/// a result always has a response.
pub open spec fn has_own_result(progress: ProgressView) -> bool {
    progress matches ProgressView::Done { result: Ok(value), .. } && is_writable(value)
}

/// A method that waits hands its action to the host; a method that is done has
/// its result written as the response.
pub open spec fn conclude(progress: ProgressView) -> StepView {
    match progress {
        ProgressView::Wait { pending, action } => StepView::Proceed { pending, action },
        ProgressView::Done { request, result } => StepView::Finish {
            response: response_for(request.id, result),
        },
    }
}

/// The first step of a request: it is refused unread if it is too large,
/// refused if it is no request, and otherwise waits for the dapp's session.
pub open spec fn first_step(raw: Seq<char>) -> StepView {
    match read_request(raw) {
        Err(error) => StepView::Finish { response: Err(error) },
        Ok(request) => StepView::Proceed {
            pending: PendingView::Session { request },
            action: ActionView::ResolveSession,
        },
    }
}

/// The step that follows when the host reports how an action went.
pub open spec fn next_step(pending: PendingView, event: EventView) -> StepView {
    conclude(next_progress(pending, event))
}

} // verus!
