use in_page_provider::chain::ChainId;
use in_page_provider::json::JsonValue;
use in_page_provider::notification::{
    notify, notify_chain_changed, notify_connect, notify_network_changed, ProviderEvent,
    ProviderMessage,
};

fn decode_text(hex_text: &str) -> String {
    String::from_utf8(hex::decode(hex_text).expect("hex")).expect("utf-8")
}

#[test]
fn provider_events_start_with_lower_case() {
    for event in ProviderEvent::all() {
        let message = ProviderMessage { event, data: JsonValue::Null };
        let s = decode_text(&notify(&message).unwrap());
        let json: serde_json::Value = serde_json::from_str(&s).unwrap();
        let s = serde_json::to_string(&json["event"]).unwrap();
        // First char is '"'
        let c = s.chars().nth(1).unwrap();
        assert!(c.is_lowercase());
        let c = event.tag().chars().next().unwrap();
        assert!(c.is_lowercase());
    }
}

#[test]
fn event_tags_are_exact() {
    let tags: Vec<&str> = ProviderEvent::all().iter().map(|event| event.tag()).collect();
    assert_eq!(
        tags,
        vec!["connect", "chainChanged", "accountsChanged", "networkChanged", "sealVaultConnect"]
    );
    for tag in tags {
        assert!(tag.chars().all(|c| c.is_ascii_alphabetic()));
    }
    assert_eq!(ProviderEvent::SealVaultConnect.name(), "SealVaultConnect");
}

#[test]
fn notification_is_hex_of_json() {
    let message = ProviderMessage {
        event: ProviderEvent::AccountsChanged,
        data: JsonValue::TextList(vec!["0xab".into(), "</script>\"".into()]),
    };
    let event_hex = notify(&message).unwrap();
    assert!(event_hex.chars().all(|c| c.is_ascii_digit() || ('a'..='f').contains(&c)));
    assert_eq!(
        decode_text(&event_hex),
        "{\"event\":\"accountsChanged\",\"data\":[\"0xab\",\"</script>\\\"\"]}"
    );
    assert_eq!(event_hex, hex::encode(decode_text(&event_hex)));
}

#[test]
fn notification_of_broken_raw_data_fails() {
    let message = ProviderMessage { event: ProviderEvent::Connect, data: JsonValue::Raw("{".into()) };
    assert_eq!(
        notify(&message),
        Err(in_page_provider::error::Error::Fatal {
            error: "Failed to deserialize message for event: 'Connect'".into()
        })
    );
    let message =
        ProviderMessage { event: ProviderEvent::Connect, data: JsonValue::Raw("{\"a\": [1, 2]}".into()) };
    assert_eq!(
        decode_text(&notify(&message).unwrap()),
        "{\"event\":\"connect\",\"data\":{\"a\":[1,2]}}"
    );
}

#[test]
fn chain_events_are_exact() {
    for (chain, hex_id, version) in [
        (ChainId::EthMainnet, "0x1", "1"),
        (ChainId::EthGoerli, "0x5", "5"),
        (ChainId::PolygonMainnet, "0x89", "137"),
        (ChainId::PolygonMumbai, "0x13881", "80001"),
    ] {
        assert_eq!(
            decode_text(&notify_chain_changed(chain).unwrap()),
            format!("{{\"event\":\"chainChanged\",\"data\":\"{}\"}}", hex_id)
        );
        assert_eq!(
            decode_text(&notify_network_changed(chain).unwrap()),
            format!("{{\"event\":\"networkChanged\",\"data\":\"{}\"}}", version)
        );
        assert_eq!(
            decode_text(&notify_connect(chain, "0xAbC").unwrap()),
            format!(
                "{{\"event\":\"sealVaultConnect\",\"data\":{{\"chainId\":\"{}\",\"networkVersion\":\"{}\",\"selectedAddress\":\"0xAbC\"}}}}",
                hex_id, version
            )
        );
    }
}
