use in_page_provider::error::{invalid_raw_request, Error, ErrorCode, InPageErrorCode};

#[test]
fn error_codes_fit_into_i32() {
    let mut sum = 0;
    for code in InPageErrorCode::all() {
        // Test that conversion doesn't panic.
        sum += code.to_i32();
    }
    // Make sure loop isn't optimized away as noop.
    assert_ne!(sum, 0);
}

#[test]
fn error_code_numbers_are_exact() {
    let numbers: Vec<i32> = InPageErrorCode::all().iter().map(|code| code.to_i32()).collect();
    assert_eq!(numbers, vec![0, 1, 2, 3, 4, 4001, 4100, 4200, 4900, 4901]);
    assert_eq!(InPageErrorCode::all().len(), 10);
}

#[test]
fn wire_codes_are_exact() {
    let wire: Vec<i32> = InPageErrorCode::all()
        .into_iter()
        .map(|code| ErrorCode::from(code).code())
        .collect();
    assert_eq!(wire, vec![-32700, -32600, -32601, -32602, -32603, 4001, 4100, 4200, 4900, 4901]);
    assert_eq!(ErrorCode::from(InPageErrorCode::UserRejected), ErrorCode::ServerError(4001));
    assert_eq!(ErrorCode::from(InPageErrorCode::InvalidParams), ErrorCode::InvalidParams);
}

#[test]
fn error_code_reads_numbers_off_the_wire() {
    assert_eq!(ErrorCode::from_i32(-32700), ErrorCode::ParseError);
    assert_eq!(ErrorCode::from_i32(-32701), ErrorCode::OversizedRequest);
    assert_eq!(ErrorCode::from_i32(-32600), ErrorCode::InvalidRequest);
    assert_eq!(ErrorCode::from_i32(-32601), ErrorCode::MethodNotFound);
    assert_eq!(ErrorCode::from_i32(-32604), ErrorCode::ServerError(-32604));
    assert_eq!(ErrorCode::from_i32(-32602), ErrorCode::InvalidParams);
    assert_eq!(ErrorCode::from_i32(-32603), ErrorCode::InternalError);
    assert_eq!(ErrorCode::from_i32(4200), ErrorCode::ServerError(4200));
    assert_eq!(ErrorCode::from_i32(i32::MIN), ErrorCode::ServerError(i32::MIN));
    assert_eq!(ErrorCode::OversizedRequest.code(), -32701);
    assert_eq!(ErrorCode::ServerIsBusy.code(), -32604);
    assert_eq!(ErrorCode::ServerError(i32::MAX).code(), i32::MAX);
}

#[test]
fn error_code_text_is_number_and_message() {
    assert_eq!(ErrorCode::ParseError.to_string(), "-32700: Parse error");
    assert_eq!(ErrorCode::InvalidParams.to_string(), "-32602: Invalid params");
    assert_eq!(ErrorCode::ServerError(4100).to_string(), "4100: Server error");
    assert_eq!(ErrorCode::ServerError(-32700).to_string(), "-32700: Server error");
    assert_eq!(ErrorCode::ServerIsBusy.to_string(), "-32604: Server is busy, try again later");
}

#[test]
fn errors_are_made_of_codes() {
    assert_eq!(
        Error::from_code(InPageErrorCode::Unauthorized),
        Error::JsonRpc { code: ErrorCode::ServerError(4100), message: "4100: Server error".into() }
    );
    assert_eq!(
        Error::from_code(InPageErrorCode::MethodNotFound),
        Error::JsonRpc { code: ErrorCode::MethodNotFound, message: "-32601: Method not found".into() }
    );
    assert_eq!(
        Error::invalid_params("Invalid hex"),
        Error::JsonRpc { code: ErrorCode::InvalidParams, message: "Invalid hex".into() }
    );
    assert_eq!(
        Error::from_error_object(-32602, "bad".into()),
        Error::JsonRpc { code: ErrorCode::InvalidParams, message: "bad".into() }
    );
    assert_eq!(
        Error::from_error_object(3, "custom".into()),
        Error::JsonRpc { code: ErrorCode::ServerError(3), message: "custom".into() }
    );
    assert_eq!(Error::fatal("broken"), Error::Fatal { error: "broken".into() });
    assert_eq!(
        invalid_raw_request(),
        Error::Retriable { error: "Could not parse JSON-RPC request".into() }
    );
    assert!(Error::invalid_params("x").is_json_rpc());
    assert!(!Error::fatal("x").is_json_rpc());
    assert!(!invalid_raw_request().is_json_rpc());
}
