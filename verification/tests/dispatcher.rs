use in_page_provider::chain::ChainId;
use in_page_provider::config::MAX_JSONRPC_REQUEST_SIZE_BYTES;
use in_page_provider::context::{answer_callback, CoreInPageCallbackMock, InPageRequestContextMock};
use in_page_provider::error::{Error, ErrorCode, InPageErrorCode};
use in_page_provider::ethereum::{Recipient, TransactionRequest};
use in_page_provider::json::{JsonValue, Request, RequestId};
use in_page_provider::protocol::{Action, Event, Pending, Progress, Step};
use in_page_provider::provider::InPageProvider;
use in_page_provider::session::{ApprovalSubject, DappApprovalParams, LocalDappSession};

const ADDRESS: &str = "0x52908400098527886E0F7030069857D2E4169EE7";
const OTHER_ADDRESS: &str = "0x8617E340B3D01FA5F11F306F4090FD50E238070D";

/// A host that keeps sessions in memory and answers every action at once.
struct Host {
    session: Option<LocalDappSession>,
    approve: bool,
    approvals: Vec<DappApprovalParams>,
    added: usize,
    funded: usize,
    touched: usize,
    resolved: usize,
    notifications: Vec<String>,
    sent: Vec<TransactionRequest>,
    signed: Vec<Vec<u8>>,
    proxied: Vec<(ChainId, String, Option<String>)>,
    actions: Vec<String>,
    fail_funding: bool,
}

impl Host {
    fn new(approve: bool) -> Host {
        Host {
            session: None,
            approve,
            approvals: Vec::new(),
            added: 0,
            funded: 0,
            touched: 0,
            resolved: 0,
            notifications: Vec::new(),
            sent: Vec::new(),
            signed: Vec::new(),
            proxied: Vec::new(),
            actions: Vec::new(),
            fail_funding: false,
        }
    }

    fn with_session(chain_id: ChainId) -> Host {
        let mut host = Host::new(true);
        host.session = Some(session(chain_id));
        host
    }

    fn perform(&mut self, action: Action) -> Event {
        match action {
            Action::ResolveSession => {
                self.actions.push("ResolveSession".into());
                self.resolved += 1;
                Event::SessionResolved(Ok(self.session.clone()))
            }
            Action::FetchFavicon => {
                self.actions.push("FetchFavicon".into());
                Event::FaviconFetched(Ok(Some(vec![1, 2, 3])))
            }
            Action::FetchApprovalSubject => {
                self.actions.push("FetchApprovalSubject".into());
                Event::ApprovalSubjectFetched(Ok(ApprovalSubject {
                    account_id: "account-1".into(),
                    dapp_identifier: "example.com".into(),
                }))
            }
            Action::ApproveDapp { dapp_approval } => {
                self.actions.push("ApproveDapp".into());
                self.approvals.push(dapp_approval);
                Event::DappApproval(self.approve)
            }
            Action::AddNewDapp { account_id, chain_id } => {
                self.actions.push("AddNewDapp".into());
                self.added += 1;
                let mut created = session(chain_id);
                created.account_id = account_id;
                self.session = Some(created.clone());
                Event::DappAdded(Ok(created))
            }
            Action::TransferAllotment { .. } => {
                self.actions.push("TransferAllotment".into());
                if self.fail_funding {
                    Event::AllotmentScheduled(Err(Error::Fatal { error: "no wallet key".into() }))
                } else {
                    self.funded += 1;
                    Event::AllotmentScheduled(Ok(()))
                }
            }
            Action::TouchSession { .. } => {
                self.actions.push("TouchSession".into());
                self.touched += 1;
                Event::SessionTouched(Ok(()))
            }
            Action::Notify { event_hex } => {
                self.actions.push("Notify".into());
                self.notifications.push(event_hex);
                Event::Notified
            }
            Action::FetchSigningKey { .. } => {
                self.actions.push("FetchSigningKey".into());
                Event::SigningKeyFetched(Ok(self.session.as_ref().unwrap().chain_id))
            }
            Action::SendTransaction { transaction, .. } => {
                self.actions.push("SendTransaction".into());
                self.sent.push(transaction);
                Event::TransactionSent(Ok("0xabcd".into()))
            }
            Action::PersonalSign { message, .. } => {
                self.actions.push("PersonalSign".into());
                self.signed.push(message);
                Event::Signed(Ok("0x1234".into()))
            }
            Action::SwitchChain { session, chain_id } => {
                self.actions.push("SwitchChain".into());
                let mut switched = session;
                switched.chain_id = chain_id;
                self.session = Some(switched);
                Event::ChainSwitched(Ok(()))
            }
            Action::Proxy { chain_id, method, params } => {
                self.actions.push("Proxy".into());
                self.proxied.push((chain_id, method, params));
                Event::Proxied(Ok("{\"number\": 7}".into()))
            }
        }
    }

    /// Handles a request from its text to its response.
    fn handle(&mut self, provider: &InPageProvider, raw: &str) -> Result<String, Error> {
        let mut step = provider.in_page_request(raw);
        loop {
            match step {
                Step::Proceed { pending, action } => {
                    let event = self.perform(action);
                    step = provider.resume(pending, event);
                }
                Step::Finish { response } => return response,
            }
        }
    }

    /// Handles a request and reads the response back as the page would.
    fn call(&mut self, provider: &InPageProvider, raw: &str) -> serde_json::Value {
        let response = self.handle(provider, raw).expect("a response");
        decode(&response)
    }
}

fn session(chain_id: ChainId) -> LocalDappSession {
    LocalDappSession {
        dapp_id: "dapp-1".into(),
        account_id: "account-1".into(),
        chain_id,
        address: ADDRESS.into(),
        address_id: "address-1".into(),
        last_used_at: "2023-01-01T00:00:00Z".into(),
    }
}

fn provider() -> InPageProvider {
    InPageProvider::new(&*InPageRequestContextMock::default_boxed()).expect("a provider")
}

fn request(method: &str, params: Option<&str>, id: u64) -> Request {
    Request { id: RequestId::Number(id), method: method.into(), params: params.map(|p| p.into()) }
}

fn raw(method: &str, params: &str, id: u64) -> String {
    format!("{{\"jsonrpc\":\"2.0\",\"id\":{},\"method\":\"{}\",\"params\":{}}}", id, method, params)
}

fn decode(hex_text: &str) -> serde_json::Value {
    assert!(hex_text.chars().all(|c| c.is_ascii_digit() || ('a'..='f').contains(&c)));
    let bytes = hex::decode(hex_text).expect("hex");
    serde_json::from_slice(&bytes).expect("json")
}

fn decode_text(hex_text: &str) -> String {
    String::from_utf8(hex::decode(hex_text).expect("hex")).expect("utf-8")
}

fn error_code(response: &serde_json::Value) -> i64 {
    response["error"]["code"].as_i64().expect("an error code")
}

#[test]
fn proxy_checks_allowed_methods() {
    let provider = provider();
    let mut host = Host::new(true);
    // Authorize first
    let first = raw("eth_requestAccounts", "null", 1);
    host.handle(&provider, &first).expect("authorized");
    let session = host.session.clone().expect("a session");

    // This request should be refused as it's an unsupported method
    let request = request("eth_coinbase", None, 2);

    let result = provider.dispatch(request, Some(session));
    println!("ersult {:?}", result);

    assert!(matches!(
        result,
        Progress::Done { result: Err(Error::JsonRpc { code, .. }), .. } if code == ErrorCode::ServerError(4200)
    ));
}

#[test]
fn unsupported_method_answers_4200_and_is_not_forwarded() {
    let provider = provider();
    let mut host = Host::with_session(ChainId::PolygonMainnet);
    let response = host.call(&provider, &raw("eth_coinbase", "[]", 5));
    assert_eq!(error_code(&response), 4200);
    assert_eq!(response["error"]["message"], "This method is not supported: 'eth_coinbase'");
    assert_eq!(response["id"], 5);
    assert!(host.proxied.is_empty());
    assert_eq!(host.actions, vec!["ResolveSession"]);
}

#[test]
fn listed_method_is_forwarded_as_it_is() {
    let provider = provider();
    let mut host = Host::with_session(ChainId::EthGoerli);
    let response = host.call(&provider, &raw("eth_getBalance", "[\"0xabc\", \"latest\"]", 9));
    assert_eq!(response["result"]["number"], 7);
    assert_eq!(response["jsonrpc"], "2.0");
    assert_eq!(
        host.proxied,
        vec![(ChainId::EthGoerli, "eth_getBalance".to_string(), Some("[\"0xabc\", \"latest\"]".to_string()))]
    );
}

#[test]
fn response_text_is_exact() {
    let provider = provider();
    let mut host = Host::with_session(ChainId::PolygonMainnet);
    let response = host.handle(&provider, &raw("web3_clientVersion", "[]", 3)).unwrap();
    assert_eq!(decode_text(&response), "{\"jsonrpc\":\"2.0\",\"result\":\"SealVault\",\"id\":3}");
    let response = host.handle(&provider, &raw("eth_foo", "[]", 4)).unwrap();
    assert_eq!(
        decode_text(&response),
        "{\"jsonrpc\":\"2.0\",\"error\":{\"code\":4200,\"message\":\"This method is not supported: 'eth_foo'\"},\"id\":4}"
    );
}

#[test]
fn request_accounts_twice_prompts_once() {
    let provider = provider();
    let mut host = Host::new(true);
    let first = host.call(&provider, &raw("eth_requestAccounts", "[]", 1));
    assert_eq!(first["result"], serde_json::Value::from(vec![ADDRESS]));
    assert_eq!(
        host.actions,
        vec![
            "ResolveSession",
            "FetchFavicon",
            "FetchApprovalSubject",
            "ApproveDapp",
            "AddNewDapp",
            "TransferAllotment",
            "TouchSession",
            "Notify"
        ]
    );
    assert_eq!(host.approvals.len(), 1);
    assert_eq!(
        host.approvals[0],
        DappApprovalParams {
            account_id: "account-1".into(),
            dapp_identifier: "example.com".into(),
            favicon: Some(vec![1, 2, 3]),
        }
    );
    host.actions.clear();
    let second = host.call(&provider, &raw("eth_requestAccounts", "[]", 2));
    assert_eq!(second["result"], serde_json::Value::from(vec![ADDRESS]));
    assert_eq!(host.actions, vec!["ResolveSession", "TouchSession", "Notify"]);
    assert_eq!(host.approvals.len(), 1);
    assert_eq!(host.added, 1);
    assert_eq!(host.funded, 1);
    assert_eq!(host.touched, 2);
}

#[test]
fn eth_accounts_also_asks_for_approval() {
    let provider = provider();
    let mut host = Host::new(true);
    let response = host.call(&provider, &raw("eth_accounts", "[]", 1));
    assert_eq!(response["result"], serde_json::Value::from(vec![ADDRESS]));
    assert_eq!(host.approvals.len(), 1);
}

#[test]
fn declined_approval_answers_4001_and_changes_nothing() {
    let provider = provider();
    let mut host = Host::new(false);
    let response = host.call(&provider, &raw("eth_requestAccounts", "[]", 1));
    assert_eq!(error_code(&response), 4001);
    assert_eq!(response["error"]["message"], "4001: Server error");
    assert_eq!(host.added, 0);
    assert_eq!(host.funded, 0);
    assert!(host.session.is_none());
    assert!(host.notifications.is_empty());
}

#[test]
fn connect_event_is_exact() {
    let provider = provider();
    let mut host = Host::new(true);
    host.call(&provider, &raw("eth_requestAccounts", "[]", 1));
    assert_eq!(host.notifications.len(), 1);
    assert_eq!(
        decode_text(&host.notifications[0]),
        format!(
            "{{\"event\":\"sealVaultConnect\",\"data\":{{\"chainId\":\"0x89\",\"networkVersion\":\"137\",\"selectedAddress\":\"{}\"}}}}",
            ADDRESS
        )
    );
}

#[test]
fn methods_without_session_are_unauthorized() {
    let provider = provider();
    for method in [
        "eth_chainId",
        "eth_sendTransaction",
        "personal_sign",
        "wallet_addEthereumChain",
        "wallet_switchEthereumChain",
        "web3_clientVersion",
        "web3_sha3",
        "eth_getBalance",
        "eth_coinbase",
    ] {
        let mut host = Host::new(true);
        let response = host.call(&provider, &raw(method, "[]", 1));
        assert_eq!(error_code(&response), 4100, "{}", method);
        assert_eq!(response["error"]["message"], "4100: Server error");
        assert_eq!(host.actions, vec!["ResolveSession"]);
    }
}

#[test]
fn dispatch_without_session_is_unauthorized() {
    let provider = provider();
    let progress = provider.dispatch(request("eth_chainId", None, 1), None);
    match progress {
        Progress::Done { result: Err(Error::JsonRpc { code, message }), .. } => {
            assert_eq!(code, ErrorCode::ServerError(4100));
            assert_eq!(code, ErrorCode::from(InPageErrorCode::Unauthorized));
            assert_eq!(message, "4100: Server error");
        }
        other => panic!("{:?}", other),
    }
}

#[test]
fn eth_chain_id_is_hex() {
    let provider = provider();
    let mut host = Host::with_session(ChainId::PolygonMumbai);
    let response = host.call(&provider, &raw("eth_chainId", "[]", 1));
    assert_eq!(response["result"], "0x13881");
    assert!(host.proxied.is_empty());
    assert_eq!(
        provider.eth_chain_id(&session(ChainId::EthMainnet)),
        Ok(JsonValue::Text("0x1".into()))
    );
}

#[test]
fn personal_sign_signs_for_the_session_address() {
    let provider = provider();
    let mut host = Host::with_session(ChainId::PolygonMainnet);
    let params = format!("[\"0x68656c6c6f\", \"{}\"]", ADDRESS.to_lowercase());
    let response = host.call(&provider, &raw("personal_sign", &params, 1));
    assert_eq!(response["result"], "0x1234");
    assert_eq!(host.signed, vec![b"hello".to_vec()]);
    // A password is accepted and ignored.
    let params = format!("[\"0x68656c6c6f\", \"{}\", \"secret\"]", ADDRESS);
    let response = host.call(&provider, &raw("personal_sign", &params, 2));
    assert_eq!(response["result"], "0x1234");
    assert_eq!(host.signed.len(), 2);
}

#[test]
fn personal_sign_refuses_another_address() {
    let provider = provider();
    let mut host = Host::with_session(ChainId::PolygonMainnet);
    let params = format!("[\"0x68656c6c6f\", \"{}\"]", OTHER_ADDRESS);
    let response = host.call(&provider, &raw("personal_sign", &params, 1));
    assert_eq!(error_code(&response), -32602);
    assert_eq!(response["error"]["message"], "Invalid address");
    assert!(host.signed.is_empty());
    assert_eq!(host.actions, vec!["ResolveSession"]);
}

#[test]
fn personal_sign_refuses_bad_parameters() {
    let provider = provider();
    let cases = [
        ("[\"68656c6c6f\", \"ADDRESS\"]", "Message must start with 0x"),
        ("[\"0x686\", \"ADDRESS\"]", "Invalid hex"),
        ("[\"0xzz\", \"ADDRESS\"]", "Invalid hex"),
    ];
    for (params, message) in cases {
        let mut host = Host::with_session(ChainId::PolygonMainnet);
        let params = params.replace("ADDRESS", ADDRESS);
        let response = host.call(&provider, &raw("personal_sign", &params, 1));
        assert_eq!(error_code(&response), -32602);
        assert_eq!(response["error"]["message"], message);
        assert!(host.signed.is_empty());
    }
    for params in ["[]", "[\"0x00\"]", "[7, 8]", "{\"a\": 1}", "[\"0x00\", \"0x12\"]"] {
        let mut host = Host::with_session(ChainId::PolygonMainnet);
        let response = host.call(&provider, &raw("personal_sign", params, 1));
        assert_eq!(error_code(&response), -32602, "{}", params);
        assert!(host.signed.is_empty());
    }
    // The password must be a string if it is there.
    let mut host = Host::with_session(ChainId::PolygonMainnet);
    let params = format!("[\"0x00\", \"{}\", 7]", ADDRESS);
    let response = host.call(&provider, &raw("personal_sign", &params, 1));
    assert_eq!(error_code(&response), -32602);
    assert!(host.signed.is_empty());
}

#[test]
fn session_with_a_broken_address_is_a_fatal_error() {
    let provider = provider();
    let mut broken = session(ChainId::PolygonMainnet);
    broken.address = "not an address".into();
    let params = format!("[\"0x00\", \"{}\"]", ADDRESS);
    let progress = provider.personal_sign(request("personal_sign", Some(&params), 1), broken);
    assert!(matches!(progress, Progress::Done { result: Err(Error::Fatal { .. }), .. }));
}

#[test]
fn send_transaction_clears_the_nonce() {
    let provider = provider();
    let mut host = Host::with_session(ChainId::PolygonMainnet);
    let params = format!(
        "[{{\"from\": \"{}\", \"to\": \"{}\", \"value\": \"0x10\", \"nonce\": \"0x5\", \"gas\": \"0x5208\", \"data\": \"0x0102\"}}]",
        ADDRESS, OTHER_ADDRESS
    );
    let response = host.call(&provider, &raw("eth_sendTransaction", &params, 1));
    assert_eq!(response["result"], "0xabcd");
    assert_eq!(host.actions, vec!["ResolveSession", "FetchSigningKey", "SendTransaction"]);
    assert_eq!(host.sent.len(), 1);
    let sent = &host.sent[0];
    assert_eq!(sent.nonce, None);
    assert_eq!(sent.value, Some([16, 0, 0, 0]));
    assert_eq!(sent.gas, Some([0x5208, 0, 0, 0]));
    assert_eq!(sent.gas_price, None);
    assert_eq!(sent.data, Some(vec![1, 2]));
    assert_eq!(sent.chain_id, None);
    let to: [u8; 20] = hex::decode(&OTHER_ADDRESS[2..]).unwrap().try_into().unwrap();
    let from: [u8; 20] = hex::decode(&ADDRESS[2..]).unwrap().try_into().unwrap();
    assert_eq!(sent.to, Some(Recipient::Address(to)));
    assert_eq!(sent.from, Some(from));
}

#[test]
fn send_transaction_refuses_bad_parameters() {
    let provider = provider();
    for params in ["[]", "[1]", "[{\"value\": \"zz\"}]", "[{}, {}]", "{}"] {
        let mut host = Host::with_session(ChainId::PolygonMainnet);
        let response = host.call(&provider, &raw("eth_sendTransaction", params, 1));
        assert_eq!(error_code(&response), -32602, "{}", params);
        assert_eq!(response["error"]["message"], "-32602: Invalid params");
        assert!(host.sent.is_empty());
    }
}

#[test]
fn add_chain_is_a_noop_for_supported_chains() {
    let provider = provider();
    let mut host = Host::with_session(ChainId::PolygonMainnet);
    let response = host.call(
        &provider,
        &raw("wallet_addEthereumChain", "[{\"chainId\": \"0x1\", \"chainName\": \"Ethereum\"}]", 1),
    );
    assert_eq!(response["result"], serde_json::Value::Null);
    assert!(response.get("error").is_none());
    assert_eq!(host.actions, vec!["ResolveSession"]);
    let response = host.call(&provider, &raw("wallet_addEthereumChain", "[{\"chainId\": \"0x2\"}]", 2));
    assert_eq!(error_code(&response), -32602);
    assert_eq!(response["error"]["message"], "Unsupported chain id");
    let response = host.call(&provider, &raw("wallet_addEthereumChain", "[{\"chain\": \"0x1\"}]", 3));
    assert_eq!(error_code(&response), -32602);
    let response = host.call(&provider, &raw("wallet_addEthereumChain", "[\"0x1\"]", 4));
    assert_eq!(error_code(&response), -32602);
}

#[test]
fn switch_chain_to_unsupported_chain_changes_nothing() {
    let provider = provider();
    let mut host = Host::with_session(ChainId::PolygonMainnet);
    let before = host.session.clone();
    let response = host.call(&provider, &raw("wallet_switchEthereumChain", "[{\"chainId\": \"0x2\"}]", 1));
    assert_eq!(error_code(&response), -32602);
    assert_eq!(response["error"]["message"], "Unsupported chain id");
    assert_eq!(host.session, before);
    assert!(host.notifications.is_empty());
    assert_eq!(host.actions, vec!["ResolveSession"]);
    let response = host.call(&provider, &raw("eth_chainId", "[]", 2));
    assert_eq!(response["result"], "0x89");
}

#[test]
fn switch_chain_notifies_chain_then_network() {
    let provider = provider();
    let mut host = Host::with_session(ChainId::PolygonMainnet);
    let response = host.call(&provider, &raw("wallet_switchEthereumChain", "[{\"chainId\": \"0x5\"}]", 1));
    assert_eq!(response["result"], serde_json::Value::Null);
    assert!(response.get("error").is_none());
    assert_eq!(host.actions, vec!["ResolveSession", "SwitchChain", "Notify", "Notify"]);
    assert_eq!(host.notifications.len(), 2);
    assert_eq!(decode_text(&host.notifications[0]), "{\"event\":\"chainChanged\",\"data\":\"0x5\"}");
    assert_eq!(decode_text(&host.notifications[1]), "{\"event\":\"networkChanged\",\"data\":\"5\"}");
    let response = host.call(&provider, &raw("eth_chainId", "[]", 2));
    assert_eq!(response["result"], "0x5");
}

#[test]
fn web3_sha3_hashes_the_bytes() {
    let provider = provider();
    let mut host = Host::with_session(ChainId::PolygonMainnet);
    let response = host.call(&provider, &raw("web3_sha3", "[\"0x68656c6c6f20776f726c64\"]", 1));
    assert_eq!(
        response["result"],
        "0x47173285a8d7341e5e972fc677286384f802f8ef42a5ec5f03bbfa254cb01fad"
    );
    assert_eq!(
        provider.web3_sha3(Some("[\"0x\"]")),
        Ok(JsonValue::Text(
            "0xc5d2460186f7233c927e7db2dcc703c0e500b653ca82273b7bfad8045d85a470".into()
        ))
    );
    let response = host.call(&provider, &raw("web3_sha3", "[\"68656c6c6f\"]", 2));
    assert_eq!(error_code(&response), -32602);
    assert_eq!(response["error"]["message"], "Message must start with 0x");
    let response = host.call(&provider, &raw("web3_sha3", "[]", 3));
    assert_eq!(error_code(&response), -32602);
    assert_eq!(response["error"]["message"], "No more params");
}

#[test]
fn web3_client_version_is_fixed() {
    let provider = provider();
    assert_eq!(provider.web3_client_version(), Ok(JsonValue::Text("SealVault".into())));
}

#[test]
fn oversized_request_is_refused_unread() {
    let provider = provider();
    let mut host = Host::with_session(ChainId::PolygonMainnet);
    let padding = " ".repeat(MAX_JSONRPC_REQUEST_SIZE_BYTES);
    let oversized = format!("{}{}", raw("eth_chainId", "[]", 1), padding);
    assert!(oversized.len() > MAX_JSONRPC_REQUEST_SIZE_BYTES);
    let result = host.handle(&provider, &oversized);
    assert_eq!(result, Err(Error::Retriable { error: "Could not parse JSON-RPC request".into() }));
    assert!(host.actions.is_empty());
    assert_eq!(host.resolved, 0);
    // A request of just the ceiling's size is read.
    let request = raw("eth_chainId", "[]", 1);
    let padding = " ".repeat(MAX_JSONRPC_REQUEST_SIZE_BYTES - request.len());
    let largest = format!("{}{}", request, padding);
    assert_eq!(largest.len(), MAX_JSONRPC_REQUEST_SIZE_BYTES);
    let response = host.call(&provider, &largest);
    assert_eq!(response["result"], "0x89");
}

#[test]
fn unparseable_request_has_no_response() {
    let provider = provider();
    for text in ["", "{", "[]", "{\"jsonrpc\":\"1.0\",\"id\":1,\"method\":\"eth_chainId\"}", "{\"id\":1}"] {
        let mut host = Host::with_session(ChainId::PolygonMainnet);
        let result = host.handle(&provider, text);
        assert_eq!(
            result,
            Err(Error::Retriable { error: "Could not parse JSON-RPC request".into() }),
            "{}",
            text
        );
        assert!(host.actions.is_empty());
    }
}

#[test]
fn request_ids_are_kept() {
    let provider = provider();
    let mut host = Host::with_session(ChainId::PolygonMainnet);
    let response = host.call(
        &provider,
        "{\"jsonrpc\":\"2.0\",\"id\":\"abc\",\"method\":\"eth_chainId\"}",
    );
    assert_eq!(response["id"], "abc");
    let response = host.call(&provider, "{\"jsonrpc\":\"2.0\",\"id\":null,\"method\":\"eth_chainId\"}");
    assert_eq!(response["id"], serde_json::Value::Null);
    assert_eq!(
        provider.raw_json_rpc_request("{\"jsonrpc\":\"2.0\",\"id\":7,\"method\":\"m\",\"params\":[1, 2]}"),
        Ok(Request { id: RequestId::Number(7), method: "m".into(), params: Some("[1, 2]".into()) })
    );
}

#[test]
fn failures_of_the_host_end_the_request() {
    let provider = provider();
    let pending = Pending::Session { request: request("eth_chainId", None, 1) };
    let fatal = Error::Fatal { error: "database is gone".into() };
    let step = provider.resume(pending, Event::SessionResolved(Err(fatal.clone())));
    assert_eq!(step, Step::Finish { response: Err(fatal) });
    // A protocol error of a collaborator goes back as an error response.
    let pending = Pending::ProxyReply { request: request("eth_call", None, 1) };
    let error = Error::from_error_object(-32000, "execution reverted".into());
    let step = provider.resume(pending, Event::Proxied(Err(error)));
    match step {
        Step::Finish { response: Ok(hex_text) } => {
            let response = decode(&hex_text);
            assert_eq!(error_code(&response), -32000);
            assert_eq!(response["error"]["message"], "execution reverted");
        }
        other => panic!("{:?}", other),
    }
}

#[test]
fn unexpected_event_is_a_fatal_error() {
    let provider = provider();
    let pending = Pending::Session { request: request("eth_chainId", None, 1) };
    let step = provider.resume(pending, Event::Notified);
    assert_eq!(step, Step::Finish { response: Err(Error::Fatal { error: "Unexpected event".into() }) });
}

#[test]
fn provider_needs_a_url() {
    let context = InPageRequestContextMock::new("https://Example.com/path");
    let provider = InPageProvider::new(&context).unwrap();
    assert_eq!(provider.url, "https://example.com/path");
    let context = InPageRequestContextMock::new("not a url");
    assert_eq!(
        InPageProvider::new(&context).map(|made| made.url),
        Err(Error::Fatal { error: "Invalid page URL".into() })
    );
    assert_eq!(InPageRequestContextMock::default_boxed().page_url, "https://example.com");
}

#[test]
fn callbacks_answer_approval_and_notification() {
    let callbacks = CoreInPageCallbackMock::new();
    let approval = Action::ApproveDapp {
        dapp_approval: DappApprovalParams::new("account-1".into(), "example.com".into(), None),
    };
    assert_eq!(answer_callback(&callbacks, approval), Some(Event::DappApproval(true)));
    let notice = Action::Notify { event_hex: "7b7d".into() };
    assert_eq!(answer_callback(&callbacks, notice), Some(Event::Notified));
    assert_eq!(answer_callback(&callbacks, Action::ResolveSession), None);
}

#[test]
fn only_safe_actions_are_safe() {
    assert!(Action::Notify { event_hex: "7b7d".into() }.is_safe());
    assert!(!Action::Notify { event_hex: "{}".into() }.is_safe());
    let proxy = |method: &str| Action::Proxy {
        chain_id: ChainId::EthMainnet,
        method: method.into(),
        params: None,
    };
    assert!(proxy("eth_call").is_safe());
    assert!(!proxy("eth_coinbase").is_safe());
    let send = |nonce: Option<[u64; 4]>| Action::SendTransaction {
        address_id: "address-1".into(),
        chain_id: ChainId::EthMainnet,
        transaction: TransactionRequest {
            from: None,
            to: Some(Recipient::Name("vitalik.eth".into())),
            gas: None,
            gas_price: None,
            value: None,
            data: None,
            nonce,
            chain_id: Some(1),
        },
    };
    assert!(send(None).is_safe());
    assert!(!send(Some([5, 0, 0, 0])).is_safe());
    assert!(Action::ResolveSession.is_safe());
    let cleared = TransactionRequest {
        from: None,
        to: None,
        gas: None,
        gas_price: None,
        value: Some([1, 2, 3, 4]),
        data: None,
        nonce: Some([9, 0, 0, 0]),
        chain_id: None,
    }
    .without_nonce();
    assert_eq!(cleared.nonce, None);
    assert_eq!(cleared.value, Some([1, 2, 3, 4]));
}

#[test]
fn funding_failure_is_not_surfaced() {
    let provider = provider();
    let created = session(ChainId::PolygonMainnet);
    let pending = Pending::Allotment { request: request("eth_requestAccounts", None, 1), session: created.clone() };
    let failure = Error::Fatal { error: "no wallet key".into() };
    let step = provider.resume(pending, Event::AllotmentScheduled(Err(failure)));
    assert_eq!(
        step,
        Step::Proceed {
            pending: Pending::Touch {
                request: request("eth_requestAccounts", None, 1),
                session: created.clone(),
            },
            action: Action::TouchSession { session: created.clone() },
        }
    );
    let pending = Pending::Allotment { request: request("eth_requestAccounts", None, 1), session: created.clone() };
    let step = provider.resume(pending, Event::AllotmentScheduled(Ok(())));
    assert!(matches!(step, Step::Proceed { action: Action::TouchSession { .. }, .. }));
    // The whole request still answers with the address.
    let mut host = Host::new(true);
    host.fail_funding = true;
    let response = host.call(&provider, &raw("eth_requestAccounts", "[]", 1));
    assert_eq!(response["result"], serde_json::Value::from(vec![ADDRESS]));
    assert!(host.session.is_some());
    assert_eq!(host.notifications.len(), 1);
}
