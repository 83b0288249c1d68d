//! The dispatcher of the in-page provider, and the handlers of its methods.
//!
//! A request comes in as text from a page that the wallet does not trust. The
//! dispatcher checks its size, parses it, asks for the dapp's session, and routes
//! the call: the two methods through which a dapp asks for accounts are open to
//! every page, every other method needs a session. Whatever a handler needs done
//! outside, it asks of the host as an [`Action`]; see [`crate::protocol`].
//!
//! The host drives a request so: it calls [`InPageProvider::in_page_request`],
//! and for as long as the step it gets is [`Step::Proceed`] it carries out the
//! action and calls [`InPageProvider::resume`] with what came of it.

use crate::chain::{parse_0x_chain_id, ChainId};
use crate::config::{CLIENT_VERSION, MAX_JSONRPC_REQUEST_SIZE_BYTES, MAX_JSONRPC_RESPONSE_SIZE_BYTES};
use crate::context::InPageRequestContextI;
use crate::encoding::{all_lower_hex, decode_0x_hex_prefix, hex_encode_bytes, hex_encode_str};
use crate::error::{invalid_raw_request, Error, ErrorCode, ErrorView, InPageErrorCode};
use crate::ethereum::{keccak256, parse_address, transaction_param};
use crate::params::{
    bytes_read_view, find_member, object_param, optional_text_read_view, sign_params, string_param,
    text_read_view,
};
use crate::json::{
    error_response, json_text, parse_request, str_view,
    is_writable, is_writable_text, json_text_of, success_response, text_view, JsonValue,
    JsonValueView, Request, RequestId, RequestView,
};
use crate::methods::{classify, is_proxied_rpc_method, Method};
use crate::model::{
    accounts_progress, add_chain_result, approval_progress, authorized_progress, chain_id_result,
    chain_param, conclude, dispatch_progress, first_step, has_own_result, next_progress, next_step,
    notice_is_due, notice_progress,
    personal_sign_message, proxy_progress, read_request, request_accounts_progress, response_for,
    send_transaction_progress, sha3_result, sign_decision,
};
use crate::notification::{notify_chain_changed, notify_connect, notify_network_changed};
use crate::protocol::{
    session_view, text_result_view, value_result_view, Action, ActionView, Event, Pending,
    PendingView, Progress, ProgressView, Step,
};
use crate::session::{DappApprovalParams, LocalDappSession};
use vstd::prelude::*;
use vstd::string::*;

verus! {

/// The address of a page in its normal form, if the text is a URL.
pub uninterp spec fn normalized_url_of(text: Seq<char>) -> Option<Seq<char>>;

/// `Url::parse` of the url crate, and the serialization of the URL it gives
/// (`String::from`). Which error it was is dropped.
#[verifier::external_body]
fn normalized_url(text: &str) -> (url: Option<String>)
    ensures
        match url {
            Some(normal) => normalized_url_of(text@) == Some(normal@),
            None => normalized_url_of(text@) is None,
        },
{
    url::Url::parse(text).ok().map(|url| String::from(url))
}

/// Whether two byte strings are the same, byte for byte.
pub fn bytes_eq(a: &Vec<u8>, b: &Vec<u8>) -> (same: bool)
    ensures
        same == (a@ == b@),
{
    if a.len() != b.len() {
        return false;
    }
    let mut i: usize = 0;
    while i < a.len()
        invariant
            i <= a@.len(),
            a@.len() == b@.len(),
            forall|j: int| 0 <= j < i ==> a@[j] == b@[j],
        decreases a@.len() - i,
    {
        if a[i] != b[i] {
            return false;
        }
        i = i + 1;
    }
    assert(a@ =~= b@);
    true
}

fn copy_text(text: &Option<String>) -> (copy: Option<String>)
    ensures
        text_view(copy) == text_view(*text),
{
    match text {
        Some(text) => Some(text.clone()),
        None => None,
    }
}

fn done(request: Request, result: Result<JsonValue, Error>) -> (progress: Progress)
    ensures
        progress@ == crate::model::done(request@, value_result_view(result)),
{
    Progress::Done { request, result }
}

fn unexpected(request: Request) -> (progress: Progress)
    ensures
        progress@ == crate::model::done(request@, Err(crate::model::unexpected_event_error())),
{
    Progress::Done { request, result: Err(Error::fatal("Unexpected event")) }
}

fn notice(request: Request, pending: Pending, event_hex: Result<String, Error>) -> (progress: Progress)
    requires
        event_hex matches Ok(hex) ==> all_lower_hex(hex@),
    ensures
        progress@ == notice_progress(request@, pending@, text_result_view(event_hex)),
        progress matches Progress::Wait { action, .. } ==> action@.is_safe(),
        event_hex is Ok ==> progress matches Progress::Wait { action: Action::Notify { .. }, .. },
{
    match event_hex {
        Ok(event_hex) => Progress::Wait { pending, action: Action::Notify { event_hex } },
        Err(error) => Progress::Done { request, result: Err(error) },
    }
}

/// The provider for one page.
#[derive(Debug)]
pub struct InPageProvider {
    /// The page's address in its normal form.
    pub url: String,
}

impl InPageProvider {
    /// The provider for the page of a request context. There is none for a page
    /// whose address is no URL.
    pub fn new<C: InPageRequestContextI>(request_context: &C) -> (provider: Result<Self, Error>)
        ensures
            match provider {
                Ok(made) => normalized_url_of(request_context.page_url_text()) == Some(made.url@),
                Err(error) => normalized_url_of(request_context.page_url_text()) is None && error@ == (
                ErrorView::Fatal { error: "Invalid page URL"@ }),
            },
    {
        let page_url = request_context.page_url();
        match normalized_url(page_url.as_str()) {
            Some(url) => Ok(InPageProvider { url }),
            None => Err(Error::fatal("Invalid page URL")),
        }
    }

    /// Takes a request in. A request over the size ceiling is refused before
    /// anything is parsed, and nothing is asked of the host for it; so is a
    /// text that is no JSON-RPC request. There is no id to answer either
    /// under, so neither gets a response. Any other request waits for the
    /// dapp's session.
    pub fn in_page_request(&self, raw_request: &str) -> (step: Step)
        ensures
            step@ == first_step(raw_request@),
            step matches Step::Proceed { action, .. } ==> action@.is_safe(),
    {
        match self.raw_json_rpc_request(raw_request) {
            Ok(request) => Step::Proceed {
                pending: Pending::Session { request },
                action: Action::ResolveSession,
            },
            Err(error) => Step::Finish { response: Err(error) },
        }
    }

    /// Reads the request out of its text.
    pub fn raw_json_rpc_request(&self, raw_request: &str) -> (request: Result<Request, Error>)
        ensures
            match request {
                Ok(parsed) => read_request(raw_request@) == Ok::<_, ErrorView>(parsed@),
                Err(error) => read_request(raw_request@) == Err::<RequestView, _>(error@),
            },
    {
        if raw_request.as_bytes().len() > MAX_JSONRPC_REQUEST_SIZE_BYTES {
            return Err(invalid_raw_request());
        }
        match parse_request(raw_request) {
            Some(request) => Ok(request),
            None => Err(invalid_raw_request()),
        }
    }

    /// Goes on with a request when the host reports how the action went that
    /// it was handed. The pending state is the one that came with the action.
    pub fn resume(&self, pending: Pending, event: Event) -> (step: Step)
        ensures
            step@ == next_step(pending@, event@),
            step matches Step::Proceed { action, .. } ==> action@.is_safe(),
            step matches Step::Finish { response: Ok(hex) } ==> all_lower_hex(hex@),
            notice_is_due(pending@, event@) ==> step matches Step::Proceed {
                action: Action::Notify { .. },
                ..
            },
            has_own_result(next_progress(pending@, event@)) ==> step matches Step::Finish {
                response: Ok(_),
            },
    {
        let progress = self.advance(pending, event);
        self.finish(progress)
    }

    /// Writes the response of a method that is done.
    pub fn finish(&self, progress: Progress) -> (step: Step)
        ensures
            step@ == conclude(progress@),
            step matches Step::Finish { response: Ok(hex) } ==> all_lower_hex(hex@),
            step is Proceed <==> progress is Wait,
            has_own_result(progress@) ==> step matches Step::Finish { response: Ok(_) },
    {
        match progress {
            Progress::Wait { pending, action } => Step::Proceed { pending, action },
            Progress::Done { request, result } => Step::Finish {
                response: self.respond(&request.id, result),
            },
        }
    }

    /// The response for a result or an error. A result and a protocol error
    /// alike give a JSON-RPC response, hex-encoded; any other error gives no
    /// response and is handed back as it is.
    pub fn respond(&self, id: &RequestId, result: Result<JsonValue, Error>) -> (response: Result<
        String,
        Error,
    >)
        ensures
            text_result_view(response) == response_for(id@, value_result_view(result)),
            response matches Ok(hex) ==> all_lower_hex(hex@),
            result matches Ok(value) && is_writable(value@) ==> response is Ok,
            result matches Err(Error::JsonRpc { .. }) ==> response is Ok,
    {
        match result {
            Ok(value) => {
                let json = match json_text(&value) {
                    Some(json) => json,
                    None => {
                        return Err(Error::fatal("Failed to serialize json value"));
                    },
                };
                proof {
                    if is_writable(value@) {
                        assert(json_text_of(value@) == Some(json@));
                        assert(is_writable_text(json@));
                    }
                }
                match success_response(id, json.as_str(), MAX_JSONRPC_RESPONSE_SIZE_BYTES) {
                    Some(response) => Ok(hex_encode_str(response.as_str())),
                    None => Err(Error::fatal("Failed to serialize json value")),
                }
            },
            Err(Error::JsonRpc { code, message }) => {
                let response = error_response(id, code.code(), message.as_str());
                Ok(hex_encode_str(response.as_str()))
            },
            Err(error) => Err(error),
        }
    }

    /// Resolve JSON-RPC method.
    ///
    /// The two methods through which a dapp asks for accounts are open to every
    /// page. Every other method fails as unauthorized unless the dapp has a
    /// session.
    pub fn dispatch(&self, request: Request, maybe_session: Option<LocalDappSession>) -> (progress:
        Progress)
        ensures
            progress@ == dispatch_progress(request@, session_view(maybe_session)),
            progress matches Progress::Wait { action, .. } ==> action@.is_safe(),
    {
        if classify(request.method.as_str()).is_bootstrap() {
            self.eth_request_accounts(request, maybe_session)
        } else {
            match maybe_session {
                Some(session) => self.dispatch_authorized_methods(request, session),
                None => done(request, Err(Error::from_code(InPageErrorCode::Unauthorized))),
            }
        }
    }

    /// Resolve JSON-RPC method if user has approved the dapp in the current account.
    pub fn dispatch_authorized_methods(&self, request: Request, session: LocalDappSession) -> (progress:
        Progress)
        ensures
            progress@ == authorized_progress(request@, session@),
            progress matches Progress::Wait { action, .. } ==> action@.is_safe(),
    {
        match classify(request.method.as_str()) {
            Method::ChainId => {
                let result = self.eth_chain_id(&session);
                done(request, result)
            },
            Method::SendTransaction => self.eth_send_transaction(request, session),
            Method::PersonalSign => self.personal_sign(request, session),
            Method::AddEthereumChain => {
                let result = self.wallet_add_ethereum_chain(request.params_text());
                done(request, result)
            },
            Method::SwitchEthereumChain => self.wallet_switch_ethereum_chain(request, session),
            Method::ClientVersion => {
                let result = self.web3_client_version();
                done(request, result)
            },
            Method::Sha3 => {
                let result = self.web3_sha3(request.params_text());
                done(request, result)
            },
            _ => self.proxy_method(request, session),
        }
    }

    /// Hands a chain query on to a node of the session's chain, if the method
    /// is on the allow-list. Any other method fails as unsupported, with code
    /// 4200, and goes nowhere.
    pub fn proxy_method(&self, request: Request, session: LocalDappSession) -> (progress: Progress)
        ensures
            progress@ == proxy_progress(request@, session@),
            progress matches Progress::Wait { action, .. } ==> action@.is_safe(),
    {
        if !is_proxied_rpc_method(request.method.as_str()) {
            let mut message = "This method is not supported: '".to_owned();
            message.append(request.method.as_str());
            message.append("'");
            let code: ErrorCode = ErrorCode::from(InPageErrorCode::UnsupportedMethod);
            return done(request, Err(Error::JsonRpc { code, message }));
        }
        let action = Action::Proxy {
            chain_id: session.chain_id,
            method: request.method.clone(),
            params: copy_text(&request.params),
        };
        Progress::Wait { pending: Pending::ProxyReply { request }, action }
    }

    /// `eth_chainId`
    pub fn eth_chain_id(&self, session: &LocalDappSession) -> (result: Result<JsonValue, Error>)
        ensures
            value_result_view(result) == chain_id_result(session@),
    {
        chain_id_to_hex_str_json(session.chain_id)
    }

    /// `eth_requestAccounts` and `eth_accounts`. A dapp that has a session gets
    /// its address, and nobody is asked; for a dapp that has none, the approval
    /// begins.
    pub fn eth_request_accounts(&self, request: Request, maybe_session: Option<LocalDappSession>) -> (progress:
        Progress)
        ensures
            progress@ == request_accounts_progress(request@, session_view(maybe_session)),
            progress matches Progress::Wait { action, .. } ==> action@.is_safe() && (maybe_session is Some
                ==> !action@.adds_dapp()),
    {
        match maybe_session {
            Some(session) => self.accounts(request, session),
            None => self.request_add_new_dapp(request),
        }
    }

    /// Gives the session's address to the dapp: first the use of the session is
    /// recorded, then the page is told that it is connected.
    pub fn accounts(&self, request: Request, session: LocalDappSession) -> (progress: Progress)
        ensures
            progress@ == accounts_progress(request@, session@),
            progress matches Progress::Wait { action, .. } && action@.is_safe() && !action@.adds_dapp(),
    {
        let action = Action::TouchSession { session: session.duplicate() };
        Progress::Wait { pending: Pending::Touch { request, session }, action }
    }

    /// Begins the approval of a dapp that the account does not know. The favicon
    /// is fetched first: no transaction is open while the network or the user
    /// is waited for.
    pub fn request_add_new_dapp(&self, request: Request) -> (progress: Progress)
        ensures
            progress@ == request_accounts_progress(request@, None),
            progress matches Progress::Wait { action, .. } && action@.is_safe(),
    {
        Progress::Wait { pending: Pending::Favicon { request }, action: Action::FetchFavicon }
    }

    /// Adds the dapp to the account that the user approved it for, or refuses
    /// the request if the user declined. The dapp starts out on the default
    /// chain.
    pub fn add_new_dapp(&self, request: Request, account_id: String, approved: bool) -> (progress:
        Progress)
        ensures
            progress@ == approval_progress(request@, account_id@, approved),
            progress matches Progress::Wait { action, .. } ==> action@.is_safe(),
    {
        if approved {
            Progress::Wait {
                pending: Pending::NewDapp { request },
                action: Action::AddNewDapp { account_id, chain_id: ChainId::default_dapp_chain() },
            }
        } else {
            done(request, Err(Error::from_code(InPageErrorCode::UserRejected)))
        }
    }

    /// Has the default allotment transferred to the address of a new session.
    pub fn transfer_default_dapp_allotment(&self, request: Request, session: LocalDappSession) -> (progress:
        Progress)
        ensures
            progress@ == (ProgressView::Wait {
                pending: PendingView::Allotment { request: request@, session: session@ },
                action: ActionView::TransferAllotment { session: session@ },
            }),
            progress matches Progress::Wait { action, .. } && action@.is_safe(),
    {
        let action = Action::TransferAllotment { session: session.duplicate() };
        Progress::Wait { pending: Pending::Allotment { request, session }, action }
    }

    /// `eth_sendTransaction`: the signing key is fetched first.
    pub fn eth_send_transaction(&self, request: Request, session: LocalDappSession) -> (progress:
        Progress)
        ensures
            progress@ == (ProgressView::Wait {
                pending: PendingView::SigningKey { request: request@, session: session@ },
                action: ActionView::FetchSigningKey { address_id: session@.address_id },
            }),
            progress matches Progress::Wait { action, .. } && action@.is_safe(),
    {
        let action = Action::FetchSigningKey { address_id: session.address_id.clone() };
        Progress::Wait { pending: Pending::SigningKey { request, session }, action }
    }

    /// Sends the one transaction of the parameters, once its signing key is
    /// there. The nonce is dropped, whatever the dapp wrote: the signer takes
    /// the next nonce of the account from the chain.
    pub fn send_transaction(&self, request: Request, session: LocalDappSession, chain_id: ChainId) -> (progress:
        Progress)
        ensures
            progress@ == send_transaction_progress(request@, session@, chain_id),
            progress matches Progress::Wait { action, .. } ==> action@.is_safe(),
            progress matches Progress::Wait { action, .. } ==> (action matches Action::SendTransaction {
                transaction,
                ..
            } && transaction.nonce is None),
    {
        match transaction_param(request.params_text()) {
            Some(transaction) => {
                let action = Action::SendTransaction {
                    address_id: session.address_id,
                    chain_id,
                    transaction: transaction.without_nonce(),
                };
                Progress::Wait { pending: Pending::Transaction { request }, action }
            },
            None => done(request, Err(Error::from_code(InPageErrorCode::InvalidParams))),
        }
    }

    /// `personal_sign`: the message is signed only if the address in the
    /// parameters is the session's own.
    pub fn personal_sign(&self, request: Request, session: LocalDappSession) -> (progress: Progress)
        ensures
            progress@ == (match personal_sign_message(request@.params, session@) {
                Ok(message) => ProgressView::Wait {
                    pending: PendingView::Signature { request: request@ },
                    action: ActionView::PersonalSign {
                        address_id: session@.address_id,
                        message,
                    },
                },
                Err(error) => crate::model::done(request@, Err(error)),
            }),
            progress matches Progress::Wait { action, .. } ==> action@.is_safe(),
    {
        match personal_sign_request(request.params_text(), &session) {
            Ok(message) => {
                let action = Action::PersonalSign { address_id: session.address_id, message };
                Progress::Wait { pending: Pending::Signature { request }, action }
            },
            Err(error) => done(request, Err(error)),
        }
    }

    /// We don't support adding chains that aren't supported already, so this is a noop
    /// if the chain is already supported and an error if it isn't.
    pub fn wallet_add_ethereum_chain(&self, params: Option<&str>) -> (result: Result<JsonValue, Error>)
        ensures
            value_result_view(result) == add_chain_result(str_view(params)),
    {
        // If we can parse it, it's a supported chain id which means it was "added".
        let _chain_id = chain_id_param(params)?;
        Ok(JsonValue::Null)
    }

    /// `wallet_switchEthereumChain`: the session is bound to the chain only if
    /// the chain is supported. For any other chain the request fails and
    /// nothing is asked of the host, so the session stays as it is.
    pub fn wallet_switch_ethereum_chain(&self, request: Request, session: LocalDappSession) -> (progress:
        Progress)
        ensures
            progress@ == (match chain_param(request@.params) {
                Ok(chain_id) => ProgressView::Wait {
                    pending: PendingView::ChainSwitch { request: request@, chain_id },
                    action: ActionView::SwitchChain { session: session@, chain_id },
                },
                Err(error) => crate::model::done(request@, Err(error)),
            }),
            progress matches Progress::Wait { action, .. } ==> action@.is_safe(),
    {
        match chain_id_param(request.params_text()) {
            Ok(chain_id) => {
                let action = Action::SwitchChain { session, chain_id };
                Progress::Wait { pending: Pending::ChainSwitch { request, chain_id }, action }
            },
            Err(error) => done(request, Err(error)),
        }
    }

    /// `web3_clientVersion`
    pub fn web3_client_version(&self) -> (result: Result<JsonValue, Error>)
        ensures
            value_result_view(result) == Ok::<_, ErrorView>(
                JsonValueView::Text("SealVault"@),
            ),
    {
        Ok(JsonValue::text(CLIENT_VERSION.to_owned()))
    }

    /// `web3_sha3`
    pub fn web3_sha3(&self, params: Option<&str>) -> (result: Result<JsonValue, Error>)
        ensures
            value_result_view(result) == sha3_result(str_view(params)),
    {
        let message = match string_param(params) {
            Ok(message) => message,
            Err(refusal) => {
                return Err(Error::invalid_params(refusal.as_str()));
            },
        };
        let message = decode_0x_hex_prefix(message.as_str())?;
        let hash = keccak256(&message);
        let mut result = "0x".to_owned();
        result.append(hex_encode_bytes(hash.as_slice()).as_str());
        Ok(JsonValue::text(result))
    }

    fn advance(&self, pending: Pending, event: Event) -> (progress: Progress)
        ensures
            progress@ == next_progress(pending@, event@),
            progress matches Progress::Wait { action, .. } ==> action@.is_safe(),
            notice_is_due(pending@, event@) ==> progress matches Progress::Wait {
                action: Action::Notify { .. },
                ..
            },
    {
        match pending {
            Pending::Session { request } => match event {
                Event::SessionResolved(Ok(maybe_session)) => self.dispatch(request, maybe_session),
                Event::SessionResolved(Err(error)) => done(request, Err(error)),
                _ => unexpected(request),
            },
            Pending::Favicon { request } => match event {
                Event::FaviconFetched(Ok(favicon)) => Progress::Wait {
                    pending: Pending::ApprovalSubject { request, favicon },
                    action: Action::FetchApprovalSubject,
                },
                Event::FaviconFetched(Err(error)) => done(request, Err(error)),
                _ => unexpected(request),
            },
            Pending::ApprovalSubject { request, favicon } => match event {
                Event::ApprovalSubjectFetched(Ok(subject)) => {
                    let account_id = subject.account_id.clone();
                    let dapp_approval = DappApprovalParams::new(
                        subject.account_id,
                        subject.dapp_identifier,
                        favicon,
                    );
                    Progress::Wait {
                        pending: Pending::Approval { request, account_id },
                        action: Action::ApproveDapp { dapp_approval },
                    }
                },
                Event::ApprovalSubjectFetched(Err(error)) => done(request, Err(error)),
                _ => unexpected(request),
            },
            Pending::Approval { request, account_id } => match event {
                Event::DappApproval(approved) => self.add_new_dapp(request, account_id, approved),
                _ => unexpected(request),
            },
            Pending::NewDapp { request } => match event {
                Event::DappAdded(Ok(session)) => self.transfer_default_dapp_allotment(request, session),
                Event::DappAdded(Err(error)) => done(request, Err(error)),
                _ => unexpected(request),
            },
            Pending::Allotment { request, session } => match event {
                // Funding is best effort: however it went, the dapp stays connected.
                Event::AllotmentScheduled(_) => self.accounts(request, session),
                _ => unexpected(request),
            },
            Pending::Touch { request, session } => match event {
                Event::SessionTouched(Ok(_)) => {
                    let event_hex = notify_connect(session.chain_id, session.address.as_str());
                    let again = request.duplicate();
                    notice(request, Pending::ConnectNotice { request: again, session }, event_hex)
                },
                Event::SessionTouched(Err(error)) => done(request, Err(error)),
                _ => unexpected(request),
            },
            Pending::ConnectNotice { request, session } => match event {
                Event::Notified => done(request, Ok(JsonValue::single_text(session.address))),
                _ => unexpected(request),
            },
            Pending::SigningKey { request, session } => match event {
                Event::SigningKeyFetched(Ok(chain_id)) => self.send_transaction(request, session, chain_id),
                Event::SigningKeyFetched(Err(error)) => done(request, Err(error)),
                _ => unexpected(request),
            },
            Pending::Transaction { request } => match event {
                Event::TransactionSent(Ok(hash)) => done(request, Ok(JsonValue::text(hash))),
                Event::TransactionSent(Err(error)) => done(request, Err(error)),
                _ => unexpected(request),
            },
            Pending::Signature { request } => match event {
                Event::Signed(Ok(signature)) => done(request, Ok(JsonValue::text(signature))),
                Event::Signed(Err(error)) => done(request, Err(error)),
                _ => unexpected(request),
            },
            Pending::ChainSwitch { request, chain_id } => match event {
                Event::ChainSwitched(Ok(_)) => {
                    let event_hex = notify_chain_changed(chain_id);
                    let again = request.duplicate();
                    notice(request, Pending::ChainNotice { request: again, chain_id }, event_hex)
                },
                Event::ChainSwitched(Err(error)) => done(request, Err(error)),
                _ => unexpected(request),
            },
            Pending::ChainNotice { request, chain_id } => match event {
                Event::Notified => {
                    let event_hex = notify_network_changed(chain_id);
                    let again = request.duplicate();
                    notice(request, Pending::NetworkNotice { request: again }, event_hex)
                },
                _ => unexpected(request),
            },
            Pending::NetworkNotice { request } => match event {
                Event::Notified => done(request, Ok(JsonValue::Null)),
                _ => unexpected(request),
            },
            Pending::ProxyReply { request } => match event {
                Event::Proxied(Ok(json)) => done(request, Ok(JsonValue::Raw(json))),
                Event::Proxied(Err(error)) => done(request, Err(error)),
                _ => unexpected(request),
            },
        }
    }
}

/// The chain's id as the JSON string that goes over the wire.
pub fn chain_id_to_hex_str_json(chain_id: ChainId) -> (json: Result<JsonValue, Error>)
    ensures
        value_result_view(json) == Ok::<_, ErrorView>(
            JsonValueView::Text(chain_id.hex_text()),
        ),
{
    Ok(JsonValue::text(chain_id.display_hex()))
}

/// Reads the chain that the first parameter names under `chainId`.
pub fn chain_id_param(params: Option<&str>) -> (chain: Result<ChainId, Error>)
    ensures
        match chain {
            Ok(chain_id) => chain_param(str_view(params)) == Ok::<_, ErrorView>(chain_id),
            Err(error) => chain_param(str_view(params)) == Err::<ChainId, _>(error@),
        },
{
    let members = match object_param(params) {
        Ok(members) => members,
        Err(refusal) => {
            return Err(Error::invalid_params(refusal.as_str()));
        },
    };
    match find_member(&members, "chainId") {
        None => Err(Error::invalid_params("missing field `chainId`")),
        Some(None) => Err(Error::invalid_params("invalid type for field `chainId`, expected a string")),
        Some(Some(text)) => parse_0x_chain_id(text.as_str()),
    }
}

/// Decides what `personal_sign` is to sign, of what was read: the message, the
/// address that the session is bound to (nothing, where the session's address
/// is no address), the address in the parameters, and the password.
pub fn check_personal_sign(
    message: Result<String, String>,
    bound: Option<Vec<u8>>,
    address: Result<Vec<u8>, String>,
    password: Result<Option<String>, String>,
) -> (checked: Result<Vec<u8>, Error>)
    ensures
        match checked {
            Ok(bytes) => sign_decision(
                text_read_view(message),
                crate::session::bytes_view(bound),
                bytes_read_view(address),
                optional_text_read_view(password),
            ) == Ok::<_, ErrorView>(bytes@),
            Err(error) => sign_decision(
                text_read_view(message),
                crate::session::bytes_view(bound),
                bytes_read_view(address),
                optional_text_read_view(password),
            ) == Err::<Seq<u8>, _>(error@),
        },
{
    let text = match message {
        Ok(text) => text,
        Err(refusal) => {
            return Err(Error::invalid_params(refusal.as_str()));
        },
    };
    let message = decode_0x_hex_prefix(text.as_str())?;
    let request_address = match bound {
        Some(address) => address,
        None => {
            return Err(Error::fatal("Invalid address in session"));
        },
    };
    let address_arg = match address {
        Ok(address) => address,
        Err(refusal) => {
            return Err(Error::invalid_params(refusal.as_str()));
        },
    };
    if !bytes_eq(&address_arg, &request_address) {
        return Err(Error::invalid_params("Invalid address"));
    }
    // Password argument is ignored.
    match password {
        Err(refusal) => Err(Error::invalid_params(refusal.as_str())),
        Ok(_) => Ok(message),
    }
}

/// Reads the parameters of `personal_sign` and the session's address, and gives
/// the message to sign.
pub fn personal_sign_request(params: Option<&str>, session: &LocalDappSession) -> (message: Result<
    Vec<u8>,
    Error,
>)
    ensures
        match message {
            Ok(bytes) => personal_sign_message(str_view(params), session@) == Ok::<_, ErrorView>(
                bytes@,
            ),
            Err(error) => personal_sign_message(str_view(params), session@) == Err::<Seq<u8>, _>(
                error@,
            ),
        },
{
    let read = sign_params(params);
    let bound = parse_address(session.address.as_str());
    check_personal_sign(read.message, bound, read.address, read.password)
}

} // verus!
