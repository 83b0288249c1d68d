//! JSON-RPC on the wire: reading a request, reading its parameters, and writing
//! values, responses and error responses.
//!
//! The JSON itself is read and written by serde_json and jsonrpsee. What they
//! give for a text is named here, and the provider's contracts speak of those
//! names.

use vstd::prelude::*;

verus! {

/// The id under which a request is answered.
#[derive(Debug, Clone, PartialEq, Eq)]
pub enum RequestId {
    Null,
    Number(u64),
    Text(String),
}

pub enum RequestIdView {
    Null,
    Number(u64),
    Text(Seq<char>),
}

impl View for RequestId {
    type V = RequestIdView;

    open spec fn view(&self) -> RequestIdView {
        match self {
            RequestId::Null => RequestIdView::Null,
            RequestId::Number(number) => RequestIdView::Number(*number),
            RequestId::Text(text) => RequestIdView::Text(text@),
        }
    }
}

/// A JSON-RPC request, as far as the provider reads it.
#[derive(Debug, Clone, PartialEq, Eq)]
pub struct Request {
    pub id: RequestId,
    /// The name of the method.
    pub method: String,
    /// The parameters as the JSON text that was sent, if any were.
    pub params: Option<String>,
}

pub struct RequestView {
    pub id: RequestIdView,
    pub method: Seq<char>,
    pub params: Option<Seq<char>>,
}

impl View for Request {
    type V = RequestView;

    open spec fn view(&self) -> RequestView {
        RequestView { id: self.id@, method: self.method@, params: text_view(self.params) }
    }
}

/// The characters of a text that may be missing.
pub open spec fn text_view(text: Option<String>) -> Option<Seq<char>> {
    match text {
        Some(text) => Some(text@),
        None => None,
    }
}

/// The characters of a borrowed text that may be missing.
pub open spec fn str_view(text: Option<&str>) -> Option<Seq<char>> {
    match text {
        Some(text) => Some(text@),
        None => None,
    }
}

impl RequestId {
    /// A second copy of the id.
    pub fn duplicate(&self) -> (copy: RequestId)
        ensures
            copy@ == self@,
    {
        match self {
            RequestId::Null => RequestId::Null,
            RequestId::Number(number) => RequestId::Number(*number),
            RequestId::Text(text) => RequestId::Text(text.clone()),
        }
    }
}

impl Request {
    /// A second copy of the request.
    pub fn duplicate(&self) -> (copy: Request)
        ensures
            copy@ == self@,
    {
        let params = match &self.params {
            Some(params) => Some(params.clone()),
            None => None,
        };
        Request { id: self.id.duplicate(), method: self.method.clone(), params }
    }

    /// The parameters as a borrowed text.
    pub fn params_text(&self) -> (params: Option<&str>)
        ensures
            str_view(params) == self@.params,
    {
        match &self.params {
            Some(params) => Some(params.as_str()),
            None => None,
        }
    }
}

/// A value that the provider writes as JSON.
#[derive(Debug, Clone, PartialEq, Eq)]
pub enum JsonValue {
    Null,
    /// A string.
    Text(String),
    /// An array of strings.
    TextList(Vec<String>),
    /// An object; each member's value is given as JSON text.
    Object(Vec<(String, String)>),
    /// A value that is already JSON text, such as the answer of a chain node.
    Raw(String),
}

pub enum JsonValueView {
    Null,
    Text(Seq<char>),
    TextList(Seq<Seq<char>>),
    Object(Seq<(Seq<char>, Seq<char>)>),
    Raw(Seq<char>),
}

impl View for JsonValue {
    type V = JsonValueView;

    open spec fn view(&self) -> JsonValueView {
        match self {
            JsonValue::Null => JsonValueView::Null,
            JsonValue::Text(text) => JsonValueView::Text(text@),
            JsonValue::TextList(items) => JsonValueView::TextList(items@.map_values(|item: String| item@)),
            JsonValue::Object(members) => JsonValueView::Object(
                members@.map_values(|member: (String, String)| (member.0@, member.1@)),
            ),
            JsonValue::Raw(json) => JsonValueView::Raw(json@),
        }
    }
}

impl JsonValue {
    /// A JSON string.
    pub fn text(text: String) -> (value: JsonValue)
        ensures
            value@ == JsonValueView::Text(text@),
    {
        JsonValue::Text(text)
    }

    /// A JSON array of one string.
    pub fn single_text(text: String) -> (value: JsonValue)
        ensures
            value@ == JsonValueView::TextList(seq![text@]),
    {
        let items = vec![text];
        assert(items@.map_values(|item: String| item@) =~= seq![text@]);
        JsonValue::TextList(items)
    }

    /// A JSON object of two members, in this order.
    pub fn object2(key1: &str, json1: String, key2: &str, json2: String) -> (value: JsonValue)
        ensures
            value@ == JsonValueView::Object(seq![(key1@, json1@), (key2@, json2@)]),
    {
        let members = vec![(key1.to_owned(), json1), (key2.to_owned(), json2)];
        assert(members@.map_values(|member: (String, String)| (member.0@, member.1@)) =~= seq![
            (key1@, json1@),
            (key2@, json2@),
        ]);
        JsonValue::Object(members)
    }

    /// A JSON object of three members, in this order.
    pub fn object3(
        key1: &str,
        json1: String,
        key2: &str,
        json2: String,
        key3: &str,
        json3: String,
    ) -> (value: JsonValue)
        ensures
            value@ == JsonValueView::Object(seq![(key1@, json1@), (key2@, json2@), (key3@, json3@)]),
    {
        let members = vec![(key1.to_owned(), json1), (key2.to_owned(), json2), (key3.to_owned(), json3)];
        assert(members@.map_values(|member: (String, String)| (member.0@, member.1@)) =~= seq![
            (key1@, json1@),
            (key2@, json2@),
            (key3@, json3@),
        ]);
        JsonValue::Object(members)
    }
}

/// The request that a text holds, if it is a JSON-RPC 2.0 request object.
pub uninterp spec fn parsed_request(raw: Seq<char>) -> Option<RequestView>;

/// `serde_json::from_str` into jsonrpsee's `Request`, whose fields are moved into a
/// [`Request`]: the id by its variant, the method's name, and the parameters as
/// the text that the raw value holds. A text that serde_json refuses gives nothing.
#[verifier::external_body]
pub(crate) fn parse_request(raw: &str) -> (request: Option<Request>)
    ensures
        match request {
            Some(parsed) => parsed_request(raw@) == Some(parsed@),
            None => parsed_request(raw@) is None,
        },
{
    let request: jsonrpsee::types::Request = serde_json::from_str(raw).ok()?;
    let id = match request.id {
        jsonrpsee::types::Id::Null => RequestId::Null,
        jsonrpsee::types::Id::Number(number) => RequestId::Number(number),
        jsonrpsee::types::Id::Str(text) => RequestId::Text(text.into_owned()),
    };
    let params = request.params.map(|params| params.get().to_owned());
    Some(Request { id, method: request.method.into_owned(), params })
}

/// The JSON text of a value; nothing where a raw part of it is no JSON.
pub uninterp spec fn json_text_of(value: JsonValueView) -> Option<Seq<char>>;

/// A value without raw parts: null, a string, or an array of strings.
pub open spec fn is_plain(value: JsonValueView) -> bool {
    value is Null || value is Text || value is TextList
}

/// The JSON text of some value without raw parts.
pub open spec fn is_plain_text(json: Seq<char>) -> bool {
    exists|value: JsonValueView| is_plain(value) && #[trigger] json_text_of(value) == Some(json)
}

/// A value without raw parts, or an object whose members are such values.
pub open spec fn is_shallow(value: JsonValueView) -> bool {
    is_plain(value) || (value matches JsonValueView::Object(members) && forall|i: int|
        0 <= i < members.len() ==> is_plain_text((#[trigger] members[i]).1))
}

/// The JSON text of some shallow value.
pub open spec fn is_shallow_text(json: Seq<char>) -> bool {
    exists|value: JsonValueView| is_shallow(value) && #[trigger] json_text_of(value) == Some(json)
}

/// A shallow value, or an object whose members are shallow values: what the
/// provider itself writes. Such a value always has a JSON text.
pub open spec fn is_writable(value: JsonValueView) -> bool {
    is_shallow(value) || (value matches JsonValueView::Object(members) && forall|i: int|
        0 <= i < members.len() ==> is_shallow_text((#[trigger] members[i]).1))
}

/// The JSON text of some writable value.
pub open spec fn is_writable_text(json: Seq<char>) -> bool {
    exists|value: JsonValueView| is_writable(value) && #[trigger] json_text_of(value) == Some(json)
}

/// `serde_json::to_string` on the `serde_json::Value` of the same shape: null, a
/// string, an array of strings, an object whose members are inserted in their
/// order, each parsed by `serde_json::from_str`, or a parsed raw text. Where a
/// parse or the writing fails, it gives nothing. Neither fails on a writable
/// value: strings are always written, and what serde_json wrote of strings, in
/// objects at most two deep, it reads again.
#[verifier::external_body]
pub(crate) fn json_text(value: &JsonValue) -> (text: Option<String>)
    ensures
        match text {
            Some(written) => json_text_of(value@) == Some(written@),
            None => json_text_of(value@) is None,
        },
        is_writable(value@) ==> text is Some,
{
    let value = match value {
        JsonValue::Null => serde_json::Value::Null,
        JsonValue::Text(text) => serde_json::Value::from(text.as_str()),
        JsonValue::TextList(items) => serde_json::Value::from(items.clone()),
        JsonValue::Raw(json) => serde_json::from_str(json).ok()?,
        JsonValue::Object(members) => {
            let mut object = serde_json::Map::new();
            for (key, json) in members {
                object.insert(key.clone(), serde_json::from_str(json).ok()?);
            }
            serde_json::Value::Object(object)
        },
    };
    serde_json::to_string(&value).ok()
}

/// The response that carries a result; nothing where the result is no JSON.
pub uninterp spec fn success_response_text(
    id: RequestIdView,
    result_json: Seq<char>,
    max_size: usize,
) -> Option<Seq<char>>;

/// `MethodResponse::response` of jsonrpsee, and the `result` field of what it
/// makes: the serialized response. The id is the same variant of jsonrpsee's `Id`;
/// the result goes in as a raw value, which `serde_json::from_str` makes of the
/// text or refuses. It does not refuse what serde_json wrote of a writable
/// value. Where the response would be longer than `max_size`, jsonrpsee writes
/// an error response in its place.
#[verifier::external_body]
pub(crate) fn success_response(id: &RequestId, result_json: &str, max_size: usize) -> (text: Option<
    String,
>)
    ensures
        match text {
            Some(written) => success_response_text(id@, result_json@, max_size) == Some(written@),
            None => success_response_text(id@, result_json@, max_size) is None,
        },
        is_writable_text(result_json@) ==> text is Some,
{
    let id = match id {
        RequestId::Null => jsonrpsee::types::Id::Null,
        RequestId::Number(number) => jsonrpsee::types::Id::Number(*number),
        RequestId::Text(text) => jsonrpsee::types::Id::Str(text.as_str().into()),
    };
    let result: &serde_json::value::RawValue = serde_json::from_str(result_json).ok()?;
    Some(jsonrpsee::core::server::helpers::MethodResponse::response(id, result, max_size).result)
}

/// The error response for a code and a message.
pub uninterp spec fn error_response_text(id: RequestIdView, code: int, message: Seq<char>) -> Seq<char>;

/// `MethodResponse::error` of jsonrpsee on the error object that
/// `ErrorObject::owned` makes of the code and the message, without data, and the
/// `result` field of what it makes: the serialized error response.
#[verifier::external_body]
pub(crate) fn error_response(id: &RequestId, code: i32, message: &str) -> (text: String)
    ensures
        text@ == error_response_text(id@, code as int, message@),
{
    let id = match id {
        RequestId::Null => jsonrpsee::types::Id::Null,
        RequestId::Number(number) => jsonrpsee::types::Id::Number(*number),
        RequestId::Text(text) => jsonrpsee::types::Id::Str(text.as_str().into()),
    };
    let error = jsonrpsee::types::ErrorObject::owned(code, message, None::<String>);
    jsonrpsee::core::server::helpers::MethodResponse::error(id, error).result
}

} // verus!
