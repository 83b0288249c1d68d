//! What holds of the dispatcher on every request, proved of the functions in
//! [`crate::model`].

use crate::chain::{lemma_chain_id_round_trip, parse_chain_id, ChainId};
use crate::encoding::{all_lower_hex, lemma_hex_encode_is_lower_hex};
use crate::error::{code_error, invalid_raw_request_error, ErrorView, InPageErrorCode};
use crate::config::MAX_JSONRPC_RESPONSE_SIZE_BYTES;
use crate::json::{
    error_response_text, json_text_of, success_response_text, JsonValueView, RequestIdView,
    RequestView,
};
use crate::methods::{is_proxied, method_of, Method};
use crate::model::{
    accounts_progress, authorized_progress, chain_id_result, chain_param, dispatch_progress, done,
    first_step, has_own_result, next_progress, next_step, notice_is_due, personal_sign_message,
    read_request, request_too_large, response_for,
    send_transaction_progress, unsupported_method_error,
};
use crate::ethereum::address_of_text;
use crate::params::second_address_param;
use crate::notification::{
    chain_changed_notification, connect_notification, network_changed_notification, notification,
    ProviderEvent,
};
use crate::protocol::{ActionView, EventView, PendingView, ProgressView, StepView};
use crate::session::LocalDappSessionView;
use vstd::prelude::*;

verus! {

/// The action that a method waits on, if it waits.
pub open spec fn action_of(progress: ProgressView) -> Option<ActionView> {
    match progress {
        ProgressView::Wait { action, .. } => Some(action),
        ProgressView::Done { .. } => None,
    }
}

/// The protocol code with which a method failed, if it failed so.
pub open spec fn failure_code(progress: ProgressView) -> Option<int> {
    match progress {
        ProgressView::Done { result: Err(ErrorView::JsonRpc { code, .. }), .. } => Some(
            code.spec_code() as int,
        ),
        _ => None,
    }
}

/// An event as it goes to the page is lower-case hex, whatever it tells.
pub proof fn lemma_notification_is_hex(event: ProviderEvent, data: JsonValueView)
    ensures
        notification(event, data) matches Ok(event_hex) ==> all_lower_hex(event_hex),
{
    if let Ok(event_hex) = notification(event, data) {
        let json = crate::notification::message_json(event, data)->0;
        lemma_hex_encode_is_lower_hex(vstd::utf8::encode_utf8(json));
    }
}

/// Whatever the host reports, the action that follows is safe: an event goes to
/// the page as lower-case hex, only a method on the allow-list is handed on to a
/// node, and a transaction is sent without a nonce.
pub proof fn lemma_every_action_is_safe(pending: PendingView, event: EventView)
    ensures
        action_of(next_progress(pending, event)) matches Some(action) ==> action.is_safe(),
        next_step(pending, event) matches StepView::Proceed { action, .. } ==> action.is_safe(),
{
    match pending {
        PendingView::Touch { request, session } => {
            if let Some(data) = crate::notification::connect_data(session.chain_id, session.address) {
                lemma_notification_is_hex(ProviderEvent::SealVaultConnect, data);
            }
        },
        PendingView::ChainSwitch { request, chain_id } => {
            lemma_notification_is_hex(
                ProviderEvent::ChainChanged,
                JsonValueView::Text(chain_id.hex_text()),
            );
        },
        PendingView::ChainNotice { request, chain_id } => {
            lemma_notification_is_hex(
                ProviderEvent::NetworkChanged,
                JsonValueView::Text(chain_id.network_version_text()),
            );
        },
        _ => {},
    }
}

/// A method that is not on the allow-list is never handed on to a node, with a
/// session or without one. If it is not one of the wallet's own methods either,
/// it fails with code 4200 wherever the dapp has a session.
pub proof fn lemma_unlisted_method_is_not_forwarded(
    request: RequestView,
    maybe_session: Option<LocalDappSessionView>,
)
    requires
        !is_proxied(request.method),
    ensures
        !(action_of(dispatch_progress(request, maybe_session)) matches Some(ActionView::Proxy { .. })),
        maybe_session matches Some(session) ==> !(action_of(authorized_progress(request, session)) matches Some(
            ActionView::Proxy { .. },
        )),
        maybe_session matches Some(session) && method_of(request.method) == Method::Other
            ==> dispatch_progress(request, maybe_session) == done(
            request,
            Err(unsupported_method_error(request.method)),
        ) && failure_code(dispatch_progress(request, maybe_session)) == Some(4200int),
{
}

/// While a request is handled, a method is handed on to a node only if it is on
/// the allow-list.
pub proof fn lemma_only_listed_methods_are_forwarded(pending: PendingView, event: EventView)
    ensures
        next_step(pending, event) matches StepView::Proceed { action: ActionView::Proxy { method, .. }, .. }
            ==> is_proxied(method),
{
    lemma_every_action_is_safe(pending, event);
}

/// For a dapp that has a session, asking for accounts asks nothing of the user:
/// the session's use is recorded, the page is told that it is connected, and
/// the session's address is the answer. Nobody is asked to approve, no dapp is
/// added, and nothing is funded.
pub proof fn lemma_session_is_reused(request: RequestView, session: LocalDappSessionView)
    requires
        method_of(request.method).spec_is_bootstrap(),
    ensures
        dispatch_progress(request, Some(session)) == accounts_progress(request, session),
        action_of(accounts_progress(request, session)) == Some(ActionView::TouchSession { session }),
        ({
            let touched = next_progress(
                PendingView::Touch { request, session },
                EventView::SessionTouched(Ok(())),
            );
            match connect_notification(session.chain_id, session.address) {
                Ok(event_hex) => touched == (ProgressView::Wait {
                    pending: PendingView::ConnectNotice { request, session },
                    action: ActionView::Notify { event_hex },
                }),
                Err(error) => touched == done(request, Err(error)),
            }
        }),
        next_progress(PendingView::ConnectNotice { request, session }, EventView::Notified) == done(
            request,
            Ok(JsonValueView::TextList(seq![session.address])),
        ),
        forall|event: EventView|
            #![trigger next_progress(PendingView::Touch { request, session }, event)]
            action_of(next_progress(PendingView::Touch { request, session }, event)) matches Some(action)
                ==> !action.adds_dapp(),
        forall|event: EventView|
            #![trigger next_progress(PendingView::ConnectNotice { request, session }, event)]
            action_of(next_progress(PendingView::ConnectNotice { request, session }, event)) is None,
{
}

/// A failure to fund the address of a new dapp is never surfaced: however the
/// funding went, the request goes on as for a dapp that has its session. The
/// session's use is recorded, the page is told, and the address is the answer.
pub proof fn lemma_funding_failure_is_not_surfaced(
    request: RequestView,
    session: LocalDappSessionView,
    outcome: Result<(), ErrorView>,
)
    ensures
        next_progress(PendingView::Allotment { request, session }, EventView::AllotmentScheduled(outcome))
            == accounts_progress(request, session),
        next_step(PendingView::Allotment { request, session }, EventView::AllotmentScheduled(outcome))
            == (StepView::Proceed {
            pending: PendingView::Touch { request, session },
            action: ActionView::TouchSession { session },
        }),
{
}

/// Without a session, every method but the two through which a dapp asks for
/// accounts fails as unauthorized, with code 4100, and no handler is reached:
/// nothing is asked of the host.
pub proof fn lemma_no_session_is_unauthorized(request: RequestView)
    requires
        !method_of(request.method).spec_is_bootstrap(),
    ensures
        dispatch_progress(request, None) == done(request, Err(code_error(InPageErrorCode::Unauthorized))),
        failure_code(dispatch_progress(request, None)) == Some(4100int),
        action_of(dispatch_progress(request, None)) is None,
{
}

/// `personal_sign` with an address that is not the session's, byte for byte,
/// fails with invalid parameters, and nothing is signed.
pub proof fn lemma_personal_sign_checks_address(request: RequestView, session: LocalDappSessionView)
    requires
        method_of(request.method) == Method::PersonalSign,
        second_address_param(request.params) matches Ok(address) && address_of_text(session.address)
            != Some(address),
    ensures
        personal_sign_message(request.params, session) is Err,
        crate::model::first_string_param_decodes(request.params) && address_of_text(session.address) is Some
            ==> personal_sign_message(request.params, session) == Err::<Seq<u8>, _>(
            crate::error::invalid_params("Invalid address"@),
        ),
        action_of(authorized_progress(request, session)) is None,
        crate::model::first_string_param_decodes(request.params) && address_of_text(session.address) is Some
            ==> failure_code(authorized_progress(request, session)) == Some(-32602int),
{
}

/// `eth_sendTransaction` sends without a nonce, whatever nonce the dapp wrote.
pub proof fn lemma_transaction_has_no_nonce(
    request: RequestView,
    session: LocalDappSessionView,
    chain_id: ChainId,
)
    ensures
        action_of(send_transaction_progress(request, session, chain_id)) matches Some(action) ==> (action matches ActionView::SendTransaction {
            transaction,
            ..
        } && transaction.nonce is None),
        next_progress(
            PendingView::SigningKey { request, session },
            EventView::SigningKeyFetched(Ok(chain_id)),
        ) == send_transaction_progress(request, session, chain_id),
{
}

/// `wallet_switchEthereumChain` for a chain that is not supported fails and
/// asks nothing of the host: the session's address and chain stay as they are.
pub proof fn lemma_switch_to_unsupported_chain_changes_nothing(
    request: RequestView,
    session: LocalDappSessionView,
)
    requires
        method_of(request.method) == Method::SwitchEthereumChain,
        chain_param(request.params) is Err,
    ensures
        authorized_progress(request, session) == done(request, Err(chain_param(request.params)->Err_0)),
        action_of(authorized_progress(request, session)) is None,
{
}

/// `wallet_switchEthereumChain` for a supported chain binds the session to the
/// chain, then sends `chainChanged`, then `networkChanged`, in this order, and
/// then answers null. A session on the new chain answers `eth_chainId` with it.
pub proof fn lemma_switch_chain_order(
    request: RequestView,
    session: LocalDappSessionView,
    chain_id: ChainId,
)
    requires
        method_of(request.method) == Method::SwitchEthereumChain,
        chain_param(request.params) == Ok::<_, ErrorView>(chain_id),
    ensures
        authorized_progress(request, session) == (ProgressView::Wait {
            pending: PendingView::ChainSwitch { request, chain_id },
            action: ActionView::SwitchChain { session, chain_id },
        }),
        chain_changed_notification(chain_id) matches Ok(first) ==> next_progress(
            PendingView::ChainSwitch { request, chain_id },
            EventView::ChainSwitched(Ok(())),
        ) == (ProgressView::Wait {
            pending: PendingView::ChainNotice { request, chain_id },
            action: ActionView::Notify { event_hex: first },
        }),
        network_changed_notification(chain_id) matches Ok(second) ==> next_progress(
            PendingView::ChainNotice { request, chain_id },
            EventView::Notified,
        ) == (ProgressView::Wait {
            pending: PendingView::NetworkNotice { request },
            action: ActionView::Notify { event_hex: second },
        }),
        next_progress(PendingView::NetworkNotice { request }, EventView::Notified) == done(
            request,
            Ok(JsonValueView::Null),
        ),
        chain_id_result(LocalDappSessionView { chain_id, ..session }) == Ok::<_, ErrorView>(
            JsonValueView::Text(chain_id.hex_text()),
        ),
        parse_chain_id(chain_id.hex_text()) == Ok::<_, ErrorView>(chain_id),
{
    lemma_chain_id_round_trip(chain_id);
}

/// After a chain switch both events are due, one after the other, and the answer
/// is the provider's own: [`crate::provider::InPageProvider::resume`] owes an
/// event for each report that is due one, and a response for each result of
/// its own. So a switch to a supported chain that the host carried out always
/// sends `chainChanged`, then `networkChanged`, and then answers null.
pub proof fn lemma_switch_chain_owes_both_events(request: RequestView, chain_id: ChainId)
    ensures
        notice_is_due(PendingView::ChainSwitch { request, chain_id }, EventView::ChainSwitched(Ok(()))),
        notice_is_due(PendingView::ChainNotice { request, chain_id }, EventView::Notified),
        !notice_is_due(PendingView::NetworkNotice { request }, EventView::Notified),
        has_own_result(next_progress(PendingView::NetworkNotice { request }, EventView::Notified)),
        next_progress(PendingView::ChainSwitch { request, chain_id }, EventView::ChainSwitched(Ok(())))
            matches ProgressView::Wait { pending, action } ==> pending == (PendingView::ChainNotice {
            request,
            chain_id,
        }) && chain_changed_notification(chain_id) == Ok::<_, ErrorView>(action->event_hex),
        next_progress(PendingView::ChainNotice { request, chain_id }, EventView::Notified)
            matches ProgressView::Wait { pending, action } ==> pending == (PendingView::NetworkNotice {
            request,
        }) && network_changed_notification(chain_id) == Ok::<_, ErrorView>(action->event_hex),
{
}

/// A request over the size ceiling is refused whatever it holds: nothing is
/// parsed, and nothing is asked of the host.
pub proof fn lemma_oversized_request_is_refused(raw: Seq<char>)
    requires
        request_too_large(raw),
    ensures
        read_request(raw) == Err::<RequestView, _>(invalid_raw_request_error()),
        first_step(raw) == (StepView::Finish { response: Err(invalid_raw_request_error()) }),
{
}

/// A result and a protocol error always get a response, and a response is
/// lower-case hex and nothing else. Only an error that is no protocol error
/// ends a request without a response.
pub proof fn lemma_response_is_hex(id: RequestIdView, result: Result<JsonValueView, ErrorView>)
    ensures
        response_for(id, result) matches Ok(response) ==> all_lower_hex(response),
        result matches Err(ErrorView::JsonRpc { .. }) ==> response_for(id, result) is Ok,
        result matches Err(error) ==> (error is JsonRpc || response_for(id, result) == Err::<
            Seq<char>,
            _,
        >(error)),
{
    match result {
        Ok(value) => {
            if let Some(json) = json_text_of(value) {
                if let Some(response) = success_response_text(id, json, MAX_JSONRPC_RESPONSE_SIZE_BYTES) {
                    lemma_hex_encode_is_lower_hex(vstd::utf8::encode_utf8(response));
                }
            }
        },
        Err(ErrorView::JsonRpc { code, message }) => {
            lemma_hex_encode_is_lower_hex(
                vstd::utf8::encode_utf8(error_response_text(id, code.spec_code() as int, message)),
            );
        },
        Err(_) => {},
    }
}

} // verus!
