use in_page_provider::chain::{parse_0x_chain_id, ChainId};
use in_page_provider::encoding::{
    decode_0x_hex_prefix, hex_encode_str, is_lower_hex, str_eq, strip_0x_hex_prefix,
};
use in_page_provider::error::{Error, ErrorCode};
use in_page_provider::methods::{classify, is_proxied_rpc_method, proxied_rpc_method_names, Method};
use in_page_provider::provider::{bytes_eq, chain_id_param, chain_id_to_hex_str_json};
use in_page_provider::session::session_params_for_dapp;

fn invalid(message: &str) -> Error {
    Error::JsonRpc { code: ErrorCode::InvalidParams, message: message.into() }
}

#[test]
fn strip_prefix_needs_0x() {
    assert_eq!(strip_0x_hex_prefix("0xab"), Ok("ab"));
    assert_eq!(strip_0x_hex_prefix("0x"), Ok(""));
    assert_eq!(strip_0x_hex_prefix("0x0x1"), Ok("0x1"));
    assert_eq!(strip_0x_hex_prefix("0xé"), Ok("é"));
    for text in ["", "0", "ab", "0Xab", "x0ab", " 0xab"] {
        assert_eq!(strip_0x_hex_prefix(text), Err(invalid("Message must start with 0x")), "{}", text);
    }
}

#[test]
fn decode_reads_both_cases() {
    assert_eq!(decode_0x_hex_prefix("0x00ff10"), Ok(vec![0, 255, 16]));
    assert_eq!(decode_0x_hex_prefix("0xAbCdEf"), Ok(vec![0xab, 0xcd, 0xef]));
    assert_eq!(decode_0x_hex_prefix("0x"), Ok(vec![]));
    assert_eq!(decode_0x_hex_prefix("00ff"), Err(invalid("Message must start with 0x")));
    for text in ["0x0", "0xabc", "0xgg", "0x 1", "0xé", "0x0x10"] {
        assert_eq!(decode_0x_hex_prefix(text), Err(invalid("Invalid hex")), "{}", text);
    }
}

#[test]
fn hex_encoding_is_lower_case_pairs() {
    assert_eq!(hex_encode_str(""), "");
    assert_eq!(hex_encode_str("AZ"), "415a");
    assert_eq!(hex_encode_str("\"</script>"), "223c2f7363726970743e");
    assert_eq!(hex_encode_str("é"), "c3a9");
    let text = "{\"jsonrpc\":\"2.0\"}";
    let encoded = hex_encode_str(text);
    assert_eq!(decode_0x_hex_prefix(&format!("0x{}", encoded)), Ok(text.as_bytes().to_vec()));
}

#[test]
fn chain_ids_are_parsed() {
    assert_eq!(parse_0x_chain_id("0x1"), Ok(ChainId::EthMainnet));
    assert_eq!(parse_0x_chain_id("0x5"), Ok(ChainId::EthGoerli));
    assert_eq!(parse_0x_chain_id("0x89"), Ok(ChainId::PolygonMainnet));
    assert_eq!(parse_0x_chain_id("0x13881"), Ok(ChainId::PolygonMumbai));
    assert_eq!(parse_0x_chain_id("0x0089"), Ok(ChainId::PolygonMainnet));
    assert_eq!(parse_0x_chain_id("0X89"), Err(invalid("Message must start with 0x")));
    assert_eq!(parse_0x_chain_id("0x0000000000000001"), Ok(ChainId::EthMainnet));
    assert_eq!(parse_0x_chain_id("0x0x5"), Ok(ChainId::EthGoerli));
    assert_eq!(parse_0x_chain_id("137"), Err(invalid("Message must start with 0x")));
    assert_eq!(parse_0x_chain_id(""), Err(invalid("Message must start with 0x")));
    assert_eq!(parse_0x_chain_id("0xzz"), Err(invalid("Invalid U64")));
    assert_eq!(parse_0x_chain_id("0x00000000000000001"), Err(invalid("Invalid U64")));
    assert_eq!(parse_0x_chain_id("0x1 "), Err(invalid("Invalid U64")));
    assert_eq!(parse_0x_chain_id("0x2"), Err(invalid("Unsupported chain id")));
    assert_eq!(parse_0x_chain_id("0x"), Err(invalid("Unsupported chain id")));
    assert_eq!(parse_0x_chain_id("0xffffffffffffffff"), Err(invalid("Unsupported chain id")));
}

#[test]
fn chain_ids_round_trip() {
    assert_eq!(ChainId::all().len(), 4);
    for chain in ChainId::all() {
        assert_eq!(parse_0x_chain_id(&chain.display_hex()), Ok(chain));
        assert_eq!(ChainId::from_u64(chain.to_u64()), Some(chain));
        assert_eq!(chain.network_version(), chain.to_u64().to_string());
        assert_eq!(chain.display_hex(), format!("0x{:x}", chain.to_u64()));
        assert_eq!(
            chain_id_to_hex_str_json(chain),
            Ok(in_page_provider::json::JsonValue::Text(format!("0x{:x}", chain.to_u64())))
        );
    }
    assert_eq!(ChainId::PolygonMainnet.display_hex(), "0x89");
    assert_eq!(ChainId::PolygonMainnet.network_version(), "137");
    assert_eq!(ChainId::PolygonMumbai.to_u64(), 80001);
    assert_eq!(ChainId::default_dapp_chain(), ChainId::PolygonMainnet);
    assert_eq!(ChainId::from_u64(0), None);
    assert_eq!(ChainId::from_u64(2), None);
    assert_eq!(ChainId::from_u64(u64::MAX), None);
}

#[test]
fn chain_parameter_is_read_from_the_first_object() {
    assert_eq!(chain_id_param(Some("[{\"chainId\": \"0x89\"}]")), Ok(ChainId::PolygonMainnet));
    assert_eq!(
        chain_id_param(Some("[{\"chainId\": \"0x1\", \"rpcUrls\": [\"https://a\"]}, 5]")),
        Ok(ChainId::EthMainnet)
    );
    assert_eq!(
        chain_id_param(Some("[{\"chainId\": 137}]")),
        Err(invalid("invalid type for field `chainId`, expected a string"))
    );
    assert_eq!(
        chain_id_param(Some("[{\"chainId\": null, \"other\": \"0x1\"}]")),
        Err(invalid("invalid type for field `chainId`, expected a string"))
    );
    assert_eq!(
        chain_id_param(Some("[{\"other\": \"0x1\", \"chainId\": \"0x5\"}]")),
        Ok(ChainId::EthGoerli)
    );
    assert_eq!(chain_id_param(Some("[{}]")), Err(invalid("missing field `chainId`")));
    assert_eq!(chain_id_param(Some("[{\"chainId\": \"89\"}]")), Err(invalid("Message must start with 0x")));
    assert_eq!(chain_id_param(None), Err(invalid("No more params")));
    assert_eq!(chain_id_param(Some("[]")), Err(invalid("No more params")));
    assert!(matches!(chain_id_param(Some("[7]")), Err(Error::JsonRpc { code: ErrorCode::InvalidParams, .. })));
}

#[test]
fn allow_list_is_fixed() {
    let names = proxied_rpc_method_names();
    assert_eq!(names.len(), 38);
    for name in &names {
        assert!(is_proxied_rpc_method(name), "{}", name);
    }
    assert!(is_proxied_rpc_method("eth_getBalance"));
    assert!(is_proxied_rpc_method("eth_sendRawTransaction"));
    assert!(is_proxied_rpc_method("net_listening"));
    assert!(is_proxied_rpc_method("eth_uninstallFilter"));
    for name in [
        "eth_coinbase",
        "eth_sign",
        "eth_sendTransaction",
        "personal_sign",
        "eth_accounts",
        "eth_requestAccounts",
        "",
        "eth_getbalance",
        "eth_getBalance ",
        "wallet_switchEthereumChain",
    ] {
        assert!(!is_proxied_rpc_method(name), "{}", name);
    }
}

#[test]
fn methods_are_told_apart_by_name() {
    assert_eq!(classify("eth_requestAccounts"), Method::RequestAccounts);
    assert_eq!(classify("eth_accounts"), Method::Accounts);
    assert_eq!(classify("eth_chainId"), Method::ChainId);
    assert_eq!(classify("eth_sendTransaction"), Method::SendTransaction);
    assert_eq!(classify("personal_sign"), Method::PersonalSign);
    assert_eq!(classify("wallet_addEthereumChain"), Method::AddEthereumChain);
    assert_eq!(classify("wallet_switchEthereumChain"), Method::SwitchEthereumChain);
    assert_eq!(classify("web3_clientVersion"), Method::ClientVersion);
    assert_eq!(classify("web3_sha3"), Method::Sha3);
    assert_eq!(classify("eth_getBalance"), Method::Other);
    assert_eq!(classify("ETH_ACCOUNTS"), Method::Other);
    assert_eq!(classify(""), Method::Other);
    assert!(Method::RequestAccounts.is_bootstrap());
    assert!(Method::Accounts.is_bootstrap());
    assert!(!Method::ChainId.is_bootstrap());
    assert!(!Method::Other.is_bootstrap());
}

#[test]
fn small_helpers_compare_exactly() {
    assert!(str_eq("abc", "abc"));
    assert!(!str_eq("abc", "abd"));
    assert!(!str_eq("abc", "ab"));
    assert!(bytes_eq(&vec![1, 2], &vec![1, 2]));
    assert!(!bytes_eq(&vec![1, 2], &vec![1, 3]));
    assert!(!bytes_eq(&vec![1, 2], &vec![1]));
    assert!(bytes_eq(&vec![], &vec![]));
}

#[test]
fn session_lookup_needs_a_dapp_record() {
    assert_eq!(session_params_for_dapp("account-1".into(), None), None);
    let params = session_params_for_dapp("account-1".into(), Some("dapp-9".into())).unwrap();
    assert_eq!(params.account_id, "account-1");
    assert_eq!(params.dapp_id, "dapp-9");
    assert_eq!(params.chain_id, ChainId::PolygonMainnet);
}

#[test]
fn lower_hex_is_recognized() {
    assert!(is_lower_hex(""));
    assert!(is_lower_hex("0123456789abcdef"));
    assert!(!is_lower_hex("0123456789ABCDEF"));
    assert!(!is_lower_hex("0x12"));
    assert!(!is_lower_hex("12 "));
    assert!(!is_lower_hex("\"</script>"));
    assert!(!is_lower_hex("é"));
}
