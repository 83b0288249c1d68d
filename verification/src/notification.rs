//! The events that the provider pushes to the page.
//!
//! An event goes out as `{"event": <tag>, "data": <data>}`, written as JSON and
//! then hex-encoded as a whole. The script in the page decodes it.

use crate::chain::ChainId;
use crate::encoding::{all_lower_hex, hex_encode_str, hex_of_text};
use crate::error::{Error, ErrorView};
use crate::json::{
    is_plain, is_plain_text, is_shallow, is_shallow_text, is_writable, json_text, json_text_of,
    JsonValue, JsonValueView,
};
use vstd::prelude::*;
use vstd::string::*;

verus! {

/// The events of EIP-1193, MetaMask's legacy `networkChanged`, and the connect
/// event of this wallet, which carries more than EIP-1193's `connect` permits.
#[derive(Debug, Clone, Copy, PartialEq, Eq, Structural)]
pub enum ProviderEvent {
    Connect,
    ChainChanged,
    AccountsChanged,
    NetworkChanged,
    SealVaultConnect,
}

impl ProviderEvent {
    /// The tag of the event on the wire.
    pub open spec fn tag_text(&self) -> Seq<char> {
        match *self {
            ProviderEvent::Connect => "connect"@,
            ProviderEvent::ChainChanged => "chainChanged"@,
            ProviderEvent::AccountsChanged => "accountsChanged"@,
            ProviderEvent::NetworkChanged => "networkChanged"@,
            ProviderEvent::SealVaultConnect => "sealVaultConnect"@,
        }
    }

    pub fn tag(&self) -> (tag: &'static str)
        ensures
            tag@ == self.tag_text(),
    {
        match self {
            ProviderEvent::Connect => "connect",
            ProviderEvent::ChainChanged => "chainChanged",
            ProviderEvent::AccountsChanged => "accountsChanged",
            ProviderEvent::NetworkChanged => "networkChanged",
            ProviderEvent::SealVaultConnect => "sealVaultConnect",
        }
    }

    /// The name of the variant, for messages to the maintainer.
    pub open spec fn name_text(&self) -> Seq<char> {
        match *self {
            ProviderEvent::Connect => "Connect"@,
            ProviderEvent::ChainChanged => "ChainChanged"@,
            ProviderEvent::AccountsChanged => "AccountsChanged"@,
            ProviderEvent::NetworkChanged => "NetworkChanged"@,
            ProviderEvent::SealVaultConnect => "SealVaultConnect"@,
        }
    }

    pub fn name(&self) -> (name: &'static str)
        ensures
            name@ == self.name_text(),
    {
        match self {
            ProviderEvent::Connect => "Connect",
            ProviderEvent::ChainChanged => "ChainChanged",
            ProviderEvent::AccountsChanged => "AccountsChanged",
            ProviderEvent::NetworkChanged => "NetworkChanged",
            ProviderEvent::SealVaultConnect => "SealVaultConnect",
        }
    }

    /// All events.
    pub fn all() -> (events: Vec<ProviderEvent>)
        ensures
            events@ == seq![
                ProviderEvent::Connect,
                ProviderEvent::ChainChanged,
                ProviderEvent::AccountsChanged,
                ProviderEvent::NetworkChanged,
                ProviderEvent::SealVaultConnect,
            ],
            forall|event: ProviderEvent| events@.contains(event),
    {
        let events = vec![
            ProviderEvent::Connect,
            ProviderEvent::ChainChanged,
            ProviderEvent::AccountsChanged,
            ProviderEvent::NetworkChanged,
            ProviderEvent::SealVaultConnect,
        ];
        proof {
            assert forall|event: ProviderEvent| events@.contains(event) by {
                let at: int = match event {
                    ProviderEvent::Connect => 0,
                    ProviderEvent::ChainChanged => 1,
                    ProviderEvent::AccountsChanged => 2,
                    ProviderEvent::NetworkChanged => 3,
                    ProviderEvent::SealVaultConnect => 4,
                };
                assert(events@[at] == event);
            }
        }
        events
    }
}

pub open spec fn is_lower_letter(c: char) -> bool {
    'a' <= c && c <= 'z'
}

pub open spec fn is_letter(c: char) -> bool {
    ('a' <= c && c <= 'z') || ('A' <= c && c <= 'Z')
}

/// Lower camel case: letters only, the first of them a small one.
pub open spec fn is_lower_camel_case(text: Seq<char>) -> bool {
    &&& text.len() > 0
    &&& is_lower_letter(text[0])
    &&& forall|i: int| 0 <= i < text.len() ==> is_letter(#[trigger] text[i])
}

/// The tag of every event is in lower camel case: the listener in the page
/// subscribes under these very names.
pub proof fn lemma_event_tags_are_lower_camel_case(event: ProviderEvent)
    ensures
        is_lower_camel_case(event.tag_text()),
{
    reveal_strlit("connect");
    reveal_strlit("chainChanged");
    reveal_strlit("accountsChanged");
    reveal_strlit("networkChanged");
    reveal_strlit("sealVaultConnect");
}

/// An event and what it tells.
#[derive(Debug, Clone, PartialEq, Eq)]
pub struct ProviderMessage {
    pub event: ProviderEvent,
    pub data: JsonValue,
}

/// The JSON text of an event with its data.
pub open spec fn message_json(event: ProviderEvent, data: JsonValueView) -> Option<Seq<char>> {
    match json_text_of(JsonValueView::Text(event.tag_text())) {
        None => None,
        Some(event_json) => match json_text_of(data) {
            None => None,
            Some(data_json) => json_text_of(
                JsonValueView::Object(seq![("event"@, event_json), ("data"@, data_json)]),
            ),
        },
    }
}

pub open spec fn message_error(event: ProviderEvent) -> ErrorView {
    ErrorView::Fatal {
        error: "Failed to deserialize message for event: '"@ + event.name_text() + "'"@,
    }
}

/// What goes to the page for an event: the hex of its JSON text.
pub open spec fn notification(event: ProviderEvent, data: JsonValueView) -> Result<
    Seq<char>,
    ErrorView,
> {
    match message_json(event, data) {
        Some(json) => Ok(hex_of_text(json)),
        None => Err(message_error(event)),
    }
}

fn message_text(message: &ProviderMessage) -> (json: Option<String>)
    ensures
        match json {
            Some(written) => message_json(message.event, message.data@) == Some(written@),
            None => message_json(message.event, message.data@) is None,
        },
        is_shallow(message.data@) ==> json is Some,
{
    let event_json = json_text(&JsonValue::text(message.event.tag().to_owned()))?;
    let data_json = json_text(&message.data)?;
    let object = JsonValue::object2("event", event_json, "data", data_json);
    proof {
        if is_shallow(message.data@) {
            let tag = JsonValueView::Text(message.event.tag_text());
            assert(is_shallow(tag) && json_text_of(tag) == Some(event_json@));
            assert(is_shallow_text(event_json@));
            assert(json_text_of(message.data@) == Some(data_json@));
            assert(is_shallow_text(data_json@));
            assert(is_writable(object@));
        }
    }
    json_text(&object)
}

/// Writes an event as the hex string that is pushed to the page.
pub fn notify(message: &ProviderMessage) -> (event_hex: Result<String, Error>)
    ensures
        match event_hex {
            Ok(hex) => notification(message.event, message.data@) == Ok::<Seq<char>, ErrorView>(hex@)
                && all_lower_hex(hex@),
            Err(error) => notification(message.event, message.data@) == Err::<Seq<char>, ErrorView>(
                error@,
            ),
        },
        is_shallow(message.data@) ==> event_hex is Ok,
{
    match message_text(message) {
        Some(json) => Ok(hex_encode_str(json.as_str())),
        None => {
            let mut error = "Failed to deserialize message for event: '".to_owned();
            error.append(message.event.name());
            error.append("'");
            Err(Error::Fatal { error })
        },
    }
}

/// What the connect event tells: the chain, its network version, and the address
/// that the dapp may use.
pub open spec fn connect_data(chain_id: ChainId, selected_address: Seq<char>) -> Option<
    JsonValueView,
> {
    match json_text_of(JsonValueView::Text(chain_id.hex_text())) {
        None => None,
        Some(chain_json) => match json_text_of(JsonValueView::Text(chain_id.network_version_text())) {
            None => None,
            Some(version_json) => match json_text_of(JsonValueView::Text(selected_address)) {
                None => None,
                Some(address_json) => Some(
                    JsonValueView::Object(
                        seq![
                            ("chainId"@, chain_json),
                            ("networkVersion"@, version_json),
                            ("selectedAddress"@, address_json),
                        ],
                    ),
                ),
            },
        },
    }
}

/// The connect event, as it goes to the page.
pub open spec fn connect_notification(chain_id: ChainId, selected_address: Seq<char>) -> Result<
    Seq<char>,
    ErrorView,
> {
    match connect_data(chain_id, selected_address) {
        None => Err(ErrorView::Fatal { error: "Failed to deserialize SealVaultConnect event"@ }),
        Some(data) => notification(ProviderEvent::SealVaultConnect, data),
    }
}

fn connect_message(chain_id: ChainId, selected_address: &str) -> (message: Option<ProviderMessage>)
    ensures
        match message {
            Some(made) => made.event == ProviderEvent::SealVaultConnect && connect_data(
                chain_id,
                selected_address@,
            ) == Some(made.data@),
            None => connect_data(chain_id, selected_address@) is None,
        },
        message matches Some(made) && is_shallow(made.data@),
{
    let chain_json = json_text(&JsonValue::text(chain_id.display_hex()))?;
    let version_json = json_text(&JsonValue::text(chain_id.network_version()))?;
    let address_json = json_text(&JsonValue::text(selected_address.to_owned()))?;
    proof {
        let chain = JsonValueView::Text(chain_id.hex_text());
        let version = JsonValueView::Text(chain_id.network_version_text());
        let address = JsonValueView::Text(selected_address@);
        assert(is_plain(chain) && json_text_of(chain) == Some(chain_json@));
        assert(is_plain(version) && json_text_of(version) == Some(version_json@));
        assert(is_plain(address) && json_text_of(address) == Some(address_json@));
        assert(is_plain_text(chain_json@) && is_plain_text(version_json@) && is_plain_text(
            address_json@,
        ));
    }
    let data = JsonValue::object3(
        "chainId",
        chain_json,
        "networkVersion",
        version_json,
        "selectedAddress",
        address_json,
    );
    Some(ProviderMessage { event: ProviderEvent::SealVaultConnect, data })
}

/// Writes the event that tells the page that it is connected.
pub fn notify_connect(chain_id: ChainId, selected_address: &str) -> (event_hex: Result<String, Error>)
    ensures
        match event_hex {
            Ok(hex) => connect_notification(chain_id, selected_address@) == Ok::<Seq<char>, ErrorView>(
                hex@,
            ) && all_lower_hex(hex@),
            Err(error) => connect_notification(chain_id, selected_address@) == Err::<
                Seq<char>,
                ErrorView,
            >(error@),
        },
        event_hex is Ok,
{
    match connect_message(chain_id, selected_address) {
        Some(message) => notify(&message),
        None => Err(Error::fatal("Failed to deserialize SealVaultConnect event")),
    }
}

/// The `chainChanged` event for a chain: it tells the chain's id as a hex quantity.
pub open spec fn chain_changed_notification(chain_id: ChainId) -> Result<Seq<char>, ErrorView> {
    notification(ProviderEvent::ChainChanged, JsonValueView::Text(chain_id.hex_text()))
}

/// The `networkChanged` event for a chain: it tells the chain's network version.
pub open spec fn network_changed_notification(chain_id: ChainId) -> Result<Seq<char>, ErrorView> {
    notification(ProviderEvent::NetworkChanged, JsonValueView::Text(chain_id.network_version_text()))
}

/// Writes the first of the two events that follow a chain switch.
pub fn notify_chain_changed(chain_id: ChainId) -> (event_hex: Result<String, Error>)
    ensures
        match event_hex {
            Ok(hex) => chain_changed_notification(chain_id) == Ok::<Seq<char>, ErrorView>(hex@)
                && all_lower_hex(hex@),
            Err(error) => chain_changed_notification(chain_id) == Err::<Seq<char>, ErrorView>(error@),
        },
        event_hex is Ok,
{
    let message = ProviderMessage {
        event: ProviderEvent::ChainChanged,
        data: JsonValue::text(chain_id.display_hex()),
    };
    notify(&message)
}

/// Writes the second of the two events that follow a chain switch.
pub fn notify_network_changed(chain_id: ChainId) -> (event_hex: Result<String, Error>)
    ensures
        match event_hex {
            Ok(hex) => network_changed_notification(chain_id) == Ok::<Seq<char>, ErrorView>(hex@)
                && all_lower_hex(hex@),
            Err(error) => network_changed_notification(chain_id) == Err::<Seq<char>, ErrorView>(
                error@,
            ),
        },
        event_hex is Ok,
{
    let message = ProviderMessage {
        event: ProviderEvent::NetworkChanged,
        data: JsonValue::text(chain_id.network_version()),
    };
    notify(&message)
}

} // verus!
