use in_page_provider::chain::ChainId;
use in_page_provider::encoding::chars_of;
use in_page_provider::script::{load_in_page_provider_script, replace_all};

const TEMPLATE: &str = "(function () {\n  const provider = new Provider(<SEALVAULT_REQUEST_HANDLER>, \"<SEALVAULT_DEFAULT_CHAIN_ID>\", \"<SEALVAULT_DEFAULT_NETWORK_VERSION>\");\n  window.<SEALVAULT_RPC_PROVIDER> = provider;\n  window.<SEALVAULT_RPC_PROVIDER>.ready = true;\n})();\n";

#[test]
fn loads_in_page_provider_with_replace() {
    let rpc_provider_name = "somethingUnlikelyToBeFoundInTheSource";
    let request_handler_name = "somethingElse.unlikely.to.be.found";

    let source = load_in_page_provider_script(TEMPLATE, rpc_provider_name, request_handler_name);

    let network_version = ChainId::default_dapp_chain().network_version();
    let chain_id = ChainId::default_dapp_chain().display_hex();

    assert!(source.contains(rpc_provider_name));
    assert!(source.contains(request_handler_name));
    assert!(source.contains(&network_version));
    assert!(source.contains(&chain_id));
}

#[test]
fn script_is_the_template_with_every_placeholder_replaced() {
    let source = load_in_page_provider_script(TEMPLATE, "ethereum", "handler.post");
    assert_eq!(
        source,
        "(function () {\n  const provider = new Provider(handler.post, \"0x89\", \"137\");\n  window.ethereum = provider;\n  window.ethereum.ready = true;\n})();\n"
    );
    assert!(!source.contains("<SEALVAULT"));
}

#[test]
fn template_without_placeholders_stays_as_it_is() {
    assert_eq!(load_in_page_provider_script("let x = 1;", "a", "b"), "let x = 1;");
    assert_eq!(load_in_page_provider_script("", "a", "b"), "");
}

fn replace(text: &str, pattern: &str, with: &str) -> String {
    let replaced = replace_all(&chars_of(text), &chars_of(pattern), &chars_of(with));
    replaced.into_iter().collect()
}

#[test]
fn replace_all_takes_occurrences_from_the_left() {
    assert_eq!(replace("aaa", "aa", "b"), "ba");
    assert_eq!(replace("abcabc", "bc", "X"), "aXaX");
    assert_eq!(replace("abc", "abc", ""), "");
    assert_eq!(replace("abc", "abcd", "X"), "abc");
    assert_eq!(replace("abc", "", "X"), "abc");
    assert_eq!(replace("xab", "ab", "abab"), "xabab");
    assert_eq!(replace("héllo wörld", "ö", "oe"), "héllo woerld");
    for (text, pattern, with) in [("aXbXc", "X", "--"), ("hello", "l", "L"), ("abab", "ab", "ba")] {
        assert_eq!(replace(text, pattern, with), text.replace(pattern, with));
    }
}

#[test]
fn chars_of_gives_the_characters() {
    assert_eq!(chars_of("aé😀"), vec!['a', 'é', '😀']);
    assert_eq!(chars_of(""), Vec::<char>::new());
}
