//! Protocol error codes, and the errors that the provider hands back.
//!
//! A dapp must see the numbers of EIP-1193 and of JSON-RPC 2.0, so that its own
//! error handling applies. Everything here is about getting those numbers right.

use vstd::prelude::*;

verus! {

/// The error codes that the provider itself raises.
///
/// The first five are the standard JSON-RPC codes, the rest are the provider
/// errors of EIP-1193.
#[derive(Debug, Clone, Copy, PartialEq, Eq, Structural)]
pub enum InPageErrorCode {
    ParseError,
    InvalidRequest,
    MethodNotFound,
    InvalidParams,
    InternalError,
    UserRejected,
    Unauthorized,
    UnsupportedMethod,
    Disconnected,
    ChainDisconnected,
}

impl InPageErrorCode {
    /// The number of a code: its position for the standard codes, whose numbers on
    /// the wire JSON-RPC fixes (see [`ErrorCode::from`]), and the EIP-1193 number
    /// for the provider errors.
    pub open spec fn spec_to_i32(&self) -> i32 {
        match *self {
            InPageErrorCode::ParseError => 0,
            InPageErrorCode::InvalidRequest => 1,
            InPageErrorCode::MethodNotFound => 2,
            InPageErrorCode::InvalidParams => 3,
            InPageErrorCode::InternalError => 4,
            InPageErrorCode::UserRejected => 4001,
            InPageErrorCode::Unauthorized => 4100,
            InPageErrorCode::UnsupportedMethod => 4200,
            InPageErrorCode::Disconnected => 4900,
            InPageErrorCode::ChainDisconnected => 4901,
        }
    }

    /// Every code has a number that fits 32 signed bits.
    #[verifier::when_used_as_spec(spec_to_i32)]
    pub fn to_i32(&self) -> (number: i32)
        ensures
            number == self.spec_to_i32(),
            0 <= number <= 4901,
    {
        match self {
            InPageErrorCode::ParseError => 0,
            InPageErrorCode::InvalidRequest => 1,
            InPageErrorCode::MethodNotFound => 2,
            InPageErrorCode::InvalidParams => 3,
            InPageErrorCode::InternalError => 4,
            InPageErrorCode::UserRejected => 4001,
            InPageErrorCode::Unauthorized => 4100,
            InPageErrorCode::UnsupportedMethod => 4200,
            InPageErrorCode::Disconnected => 4900,
            InPageErrorCode::ChainDisconnected => 4901,
        }
    }

    /// All codes, in the order of their declaration.
    pub fn all() -> (codes: Vec<InPageErrorCode>)
        ensures
            codes@ == seq![
                InPageErrorCode::ParseError,
                InPageErrorCode::InvalidRequest,
                InPageErrorCode::MethodNotFound,
                InPageErrorCode::InvalidParams,
                InPageErrorCode::InternalError,
                InPageErrorCode::UserRejected,
                InPageErrorCode::Unauthorized,
                InPageErrorCode::UnsupportedMethod,
                InPageErrorCode::Disconnected,
                InPageErrorCode::ChainDisconnected,
            ],
            forall|code: InPageErrorCode| codes@.contains(code),
    {
        let codes = vec![
            InPageErrorCode::ParseError,
            InPageErrorCode::InvalidRequest,
            InPageErrorCode::MethodNotFound,
            InPageErrorCode::InvalidParams,
            InPageErrorCode::InternalError,
            InPageErrorCode::UserRejected,
            InPageErrorCode::Unauthorized,
            InPageErrorCode::UnsupportedMethod,
            InPageErrorCode::Disconnected,
            InPageErrorCode::ChainDisconnected,
        ];
        proof {
            assert forall|code: InPageErrorCode| codes@.contains(code) by {
                let at: int = match code {
                    InPageErrorCode::ParseError => 0,
                    InPageErrorCode::InvalidRequest => 1,
                    InPageErrorCode::MethodNotFound => 2,
                    InPageErrorCode::InvalidParams => 3,
                    InPageErrorCode::InternalError => 4,
                    InPageErrorCode::UserRejected => 5,
                    InPageErrorCode::Unauthorized => 6,
                    InPageErrorCode::UnsupportedMethod => 7,
                    InPageErrorCode::Disconnected => 8,
                    InPageErrorCode::ChainDisconnected => 9,
                };
                assert(codes@[at] == code);
            }
        }
        codes
    }
}

/// Invalid JSON was received.
pub const PARSE_ERROR_CODE: i32 = -32700;

/// The request was too big.
pub const OVERSIZED_REQUEST_CODE: i32 = -32701;

/// The JSON sent is not a valid request object.
pub const INVALID_REQUEST_CODE: i32 = -32600;

/// The method does not exist.
pub const METHOD_NOT_FOUND_CODE: i32 = -32601;

/// The server is at capacity.
pub const SERVER_IS_BUSY_CODE: i32 = -32604;

/// Invalid method parameters.
pub const INVALID_PARAMS_CODE: i32 = -32602;

/// Internal JSON-RPC error.
pub const INTERNAL_ERROR_CODE: i32 = -32603;

/// A JSON-RPC error code as it goes over the wire.
#[derive(Debug, Clone, Copy, PartialEq, Eq, Structural)]
pub enum ErrorCode {
    /// Invalid JSON was received.
    ParseError,
    /// The request was too big.
    OversizedRequest,
    /// The JSON sent is not a valid request object.
    InvalidRequest,
    /// The method does not exist.
    MethodNotFound,
    /// The server is at capacity.
    ServerIsBusy,
    /// Invalid method parameters.
    InvalidParams,
    /// Internal JSON-RPC error.
    InternalError,
    /// Left to the implementation; the provider errors of EIP-1193 travel so.
    ServerError(i32),
}

impl ErrorCode {
    pub open spec fn spec_code(&self) -> i32 {
        match *self {
            ErrorCode::ParseError => PARSE_ERROR_CODE,
            ErrorCode::OversizedRequest => OVERSIZED_REQUEST_CODE,
            ErrorCode::InvalidRequest => INVALID_REQUEST_CODE,
            ErrorCode::MethodNotFound => METHOD_NOT_FOUND_CODE,
            ErrorCode::ServerIsBusy => SERVER_IS_BUSY_CODE,
            ErrorCode::InvalidParams => INVALID_PARAMS_CODE,
            ErrorCode::InternalError => INTERNAL_ERROR_CODE,
            ErrorCode::ServerError(code) => code,
        }
    }

    /// The number that stands for this code on the wire.
    #[verifier::when_used_as_spec(spec_code)]
    pub fn code(&self) -> (number: i32)
        ensures
            number == self.spec_code(),
    {
        match self {
            ErrorCode::ParseError => PARSE_ERROR_CODE,
            ErrorCode::OversizedRequest => OVERSIZED_REQUEST_CODE,
            ErrorCode::InvalidRequest => INVALID_REQUEST_CODE,
            ErrorCode::MethodNotFound => METHOD_NOT_FOUND_CODE,
            ErrorCode::ServerIsBusy => SERVER_IS_BUSY_CODE,
            ErrorCode::InvalidParams => INVALID_PARAMS_CODE,
            ErrorCode::InternalError => INTERNAL_ERROR_CODE,
            ErrorCode::ServerError(code) => *code,
        }
    }

    /// The code that a number read off the wire stands for. The number of a busy
    /// server is not read as [`ErrorCode::ServerIsBusy`]: like every number that
    /// is left to the implementation, it is read as a server error.
    pub open spec fn spec_from_i32(number: i32) -> ErrorCode {
        if number == PARSE_ERROR_CODE {
            ErrorCode::ParseError
        } else if number == OVERSIZED_REQUEST_CODE {
            ErrorCode::OversizedRequest
        } else if number == INVALID_REQUEST_CODE {
            ErrorCode::InvalidRequest
        } else if number == METHOD_NOT_FOUND_CODE {
            ErrorCode::MethodNotFound
        } else if number == INVALID_PARAMS_CODE {
            ErrorCode::InvalidParams
        } else if number == INTERNAL_ERROR_CODE {
            ErrorCode::InternalError
        } else {
            ErrorCode::ServerError(number)
        }
    }

    #[verifier::when_used_as_spec(spec_from_i32)]
    pub fn from_i32(number: i32) -> (code: ErrorCode)
        ensures
            code == Self::spec_from_i32(number),
            code.spec_code() == number,
    {
        if number == PARSE_ERROR_CODE {
            ErrorCode::ParseError
        } else if number == OVERSIZED_REQUEST_CODE {
            ErrorCode::OversizedRequest
        } else if number == INVALID_REQUEST_CODE {
            ErrorCode::InvalidRequest
        } else if number == METHOD_NOT_FOUND_CODE {
            ErrorCode::MethodNotFound
        } else if number == INVALID_PARAMS_CODE {
            ErrorCode::InvalidParams
        } else if number == INTERNAL_ERROR_CODE {
            ErrorCode::InternalError
        } else {
            ErrorCode::ServerError(number)
        }
    }

    /// The text `<number>: <message>` under which a code is shown.
    pub open spec fn text(self) -> Seq<char> {
        error_code_display(self.spec_code() as int, self is ServerError)
    }

    /// The text under which the code is shown, as the JSON-RPC library words it.
    pub fn to_string(&self) -> (text: String)
        ensures
            text@ == self.text(),
    {
        error_code_text(*self)
    }
}

impl From<InPageErrorCode> for ErrorCode {
    /// The standard codes keep their JSON-RPC meaning; a provider error travels as a
    /// server error with its EIP-1193 number.
    fn from(code: InPageErrorCode) -> (wire: ErrorCode) {
        match code {
            InPageErrorCode::ParseError => ErrorCode::ParseError,
            InPageErrorCode::InvalidRequest => ErrorCode::InvalidRequest,
            InPageErrorCode::MethodNotFound => ErrorCode::MethodNotFound,
            InPageErrorCode::InvalidParams => ErrorCode::InvalidParams,
            InPageErrorCode::InternalError => ErrorCode::InternalError,
            custom_code => ErrorCode::ServerError(custom_code.to_i32()),
        }
    }
}

impl vstd::std_specs::convert::FromSpecImpl<InPageErrorCode> for ErrorCode {
    open spec fn obeys_from_spec() -> bool {
        true
    }

    open spec fn from_spec(code: InPageErrorCode) -> ErrorCode {
        match code {
            InPageErrorCode::ParseError => ErrorCode::ParseError,
            InPageErrorCode::InvalidRequest => ErrorCode::InvalidRequest,
            InPageErrorCode::MethodNotFound => ErrorCode::MethodNotFound,
            InPageErrorCode::InvalidParams => ErrorCode::InvalidParams,
            InPageErrorCode::InternalError => ErrorCode::InternalError,
            custom_code => ErrorCode::ServerError(custom_code.spec_to_i32()),
        }
    }
}

/// The number under which a provider code goes over the wire.
pub open spec fn wire_code(code: InPageErrorCode) -> i32 {
    <ErrorCode as vstd::std_specs::convert::FromSpec<InPageErrorCode>>::from_spec(code).spec_code()
}

/// Every declared code goes over the wire as a number of 32 signed bits: a standard
/// JSON-RPC number, or its own EIP-1193 number.
pub proof fn lemma_wire_codes(code: InPageErrorCode)
    ensures
        i32::MIN <= wire_code(code) <= i32::MAX,
        wire_code(InPageErrorCode::ParseError) == -32700,
        wire_code(InPageErrorCode::InvalidRequest) == -32600,
        wire_code(InPageErrorCode::MethodNotFound) == -32601,
        wire_code(InPageErrorCode::InvalidParams) == -32602,
        wire_code(InPageErrorCode::InternalError) == -32603,
        wire_code(InPageErrorCode::UserRejected) == 4001,
        wire_code(InPageErrorCode::Unauthorized) == 4100,
        wire_code(InPageErrorCode::UnsupportedMethod) == 4200,
        wire_code(InPageErrorCode::Disconnected) == 4900,
        wire_code(InPageErrorCode::ChainDisconnected) == 4901,
{
}

/// What jsonrpsee shows for an error code: a function of the code's number and of
/// whether it is a `ServerError`.
pub uninterp spec fn error_code_display(number: int, server_error: bool) -> Seq<char>;

/// Calls `Display` of `jsonrpsee::types::error::ErrorCode` (`to_string`) on the
/// same variant of that enum. The text is taken as a function of the variant's
/// number and of the variant being `ServerError`, which is all that the enum holds.
#[verifier::external_body]
fn error_code_text(code: ErrorCode) -> (text: String)
    ensures
        text@ == error_code_display(code.spec_code() as int, code is ServerError),
{
    let outside = match code {
        ErrorCode::ParseError => jsonrpsee::types::error::ErrorCode::ParseError,
        ErrorCode::OversizedRequest => jsonrpsee::types::error::ErrorCode::OversizedRequest,
        ErrorCode::InvalidRequest => jsonrpsee::types::error::ErrorCode::InvalidRequest,
        ErrorCode::MethodNotFound => jsonrpsee::types::error::ErrorCode::MethodNotFound,
        ErrorCode::ServerIsBusy => jsonrpsee::types::error::ErrorCode::ServerIsBusy,
        ErrorCode::InvalidParams => jsonrpsee::types::error::ErrorCode::InvalidParams,
        ErrorCode::InternalError => jsonrpsee::types::error::ErrorCode::InternalError,
        ErrorCode::ServerError(number) => jsonrpsee::types::error::ErrorCode::ServerError(number),
    };
    outside.to_string()
}

/// An error of the provider.
#[derive(Debug, Clone, PartialEq, Eq)]
pub enum Error {
    /// An expected outcome of the protocol: it goes back to the dapp inside a
    /// well-formed JSON-RPC error response.
    JsonRpc { code: ErrorCode, message: String },
    /// The request could not be read, so there is no id to answer under. The
    /// caller may send a corrected request.
    Retriable { error: String },
    /// An invariant was violated. Not to be retried.
    Fatal { error: String },
}

/// An [`Error`] as contracts see it.
pub enum ErrorView {
    JsonRpc { code: ErrorCode, message: Seq<char> },
    Retriable { error: Seq<char> },
    Fatal { error: Seq<char> },
}

impl View for Error {
    type V = ErrorView;

    open spec fn view(&self) -> ErrorView {
        match self {
            Error::JsonRpc { code, message } => ErrorView::JsonRpc { code: *code, message: message@ },
            Error::Retriable { error } => ErrorView::Retriable { error: error@ },
            Error::Fatal { error } => ErrorView::Fatal { error: error@ },
        }
    }
}

/// The protocol error that stands for a provider code alone: its message is the
/// code's own text.
pub open spec fn code_error(code: InPageErrorCode) -> ErrorView {
    let wire = <ErrorCode as vstd::std_specs::convert::FromSpec<InPageErrorCode>>::from_spec(code);
    ErrorView::JsonRpc { code: wire, message: wire.text() }
}

/// The protocol error for parameters that cannot be used.
pub open spec fn invalid_params(message: Seq<char>) -> ErrorView {
    ErrorView::JsonRpc { code: ErrorCode::InvalidParams, message }
}

/// The error for a request that is too large or cannot be parsed.
pub open spec fn invalid_raw_request_error() -> ErrorView {
    ErrorView::Retriable { error: "Could not parse JSON-RPC request"@ }
}

/// The error for a value that could not be written as JSON.
pub open spec fn serialization_error() -> ErrorView {
    ErrorView::Fatal { error: "Failed to serialize json value"@ }
}

impl Error {
    /// The protocol error for a provider code, with the code's own text as message.
    pub fn from_code(code: InPageErrorCode) -> (error: Error)
        ensures
            error@ == code_error(code),
    {
        let wire: ErrorCode = ErrorCode::from(code);
        Error::JsonRpc { code: wire, message: wire.to_string() }
    }

    /// The protocol error for parameters that cannot be used.
    pub fn invalid_params(message: &str) -> (error: Error)
        ensures
            error@ == invalid_params(message@),
    {
        Error::JsonRpc { code: ErrorCode::from(InPageErrorCode::InvalidParams), message: message.to_owned() }
    }

    /// An error of the wire, as a collaborator reports it: a number and a message.
    pub fn from_error_object(number: i32, message: String) -> (error: Error)
        ensures
            error@ == (ErrorView::JsonRpc { code: ErrorCode::spec_from_i32(number), message: message@ }),
    {
        Error::JsonRpc { code: ErrorCode::from_i32(number), message }
    }

    /// An invariant violation.
    pub fn fatal(error: &str) -> (fatal: Error)
        ensures
            fatal@ == (ErrorView::Fatal { error: error@ }),
    {
        Error::Fatal { error: error.to_owned() }
    }

    /// Whether this error goes back to the dapp as a JSON-RPC error response.
    pub fn is_json_rpc(&self) -> (protocol: bool)
        ensures
            protocol == (self is JsonRpc),
    {
        match self {
            Error::JsonRpc { .. } => true,
            _ => false,
        }
    }
}

/// The error for a request that is too large or cannot be parsed. Without a
/// parsed request there is no id, so no JSON-RPC error response can be written.
pub fn invalid_raw_request() -> (error: Error)
    ensures
        error@ == invalid_raw_request_error(),
{
    Error::Retriable { error: "Could not parse JSON-RPC request".to_owned() }
}

} // verus!
