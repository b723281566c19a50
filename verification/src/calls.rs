//! The calls that the bridge makes for its caller: what is asked of the
//! network, decided from the caller's inputs before anything is sent.

use crate::locator::{package_location, resolve_package, PackageLocation, PackageLocationView};
use crate::text::{begins_with_http_scheme, has_http_scheme, optional_str, optional_text};
use vstd::prelude::*;

verus! {

/// The version of the JSON-RPC protocol that requests are made in.
pub const JSONRPC_VERSION: &'static str = "2.0";

/// The environment variable that holds the token for the streaming service.
pub const API_TOKEN_VARIABLE: &'static str = "SUBSTREAMS_API_TOKEN";

/// Why a call cannot be made.
#[derive(Clone, Copy, PartialEq, Eq, Structural, Debug)]
pub enum CallError {
    /// The parameters of a JSON-RPC call are no JSON text.
    InvalidParameters,
    /// The headers of an HTTP call are no JSON text.
    InvalidHeaders,
    /// No token for the streaming service was supplied.
    MissingToken,
}

/// A member of a JSON object: its key, and its value where that is a string.
pub struct JsonMember {
    pub key: String,
    pub text: Option<String>,
}

/// What a `JsonMember` is, as plain values.
pub struct JsonMemberView {
    pub key: Seq<char>,
    pub text: Option<Seq<char>>,
}

impl View for JsonMember {
    type V = JsonMemberView;

    open spec fn view(&self) -> JsonMemberView {
        JsonMemberView {
            key: self.key@,
            text: match self.text {
                Some(text) => Some(text@),
                None => None,
            },
        }
    }
}

/// A JSON document, as far as the bridge reads it.
pub enum JsonDocument {
    /// An object, with its members in the order in which the parser hands them out.
    Object(Vec<JsonMember>),
    /// Any other JSON value.
    Other,
}

/// What a `JsonDocument` is, as plain values.
pub enum JsonDocumentView {
    Object(Seq<JsonMemberView>),
    Other,
}

/// The views of a list of members, in order.
pub open spec fn members_view(members: Seq<JsonMember>) -> Seq<JsonMemberView> {
    Seq::new(members.len(), |i: int| members[i]@)
}

impl View for JsonDocument {
    type V = JsonDocumentView;

    open spec fn view(&self) -> JsonDocumentView {
        match self {
            JsonDocument::Object(members) => JsonDocumentView::Object(members_view(members@)),
            JsonDocument::Other => JsonDocumentView::Other,
        }
    }
}

/// The view of a document that may be absent.
pub open spec fn document_view(document: Option<JsonDocument>) -> Option<JsonDocumentView> {
    match document {
        Some(document) => Some(document@),
        None => None,
    }
}

/// What `serde_json::from_str` makes of `text`, as far as the bridge reads
/// it, or none where `text` is no JSON text.
pub uninterp spec fn json_document(text: Seq<char>) -> Option<JsonDocumentView>;

/// Reads a JSON text.
///
/// Calls `serde_json::from_str` for a `serde_json::Value`. Of an object it
/// keeps the members as `serde_json::Map::iter` hands them out, each with its
/// key and, where `serde_json::Value::as_str` gives one, its string; of any
/// other value only that it is none. The contract gives the result a name;
/// it claims nothing of which texts are JSON.
#[verifier::external_body]
pub(crate) fn parse_json(text: &str) -> (document: Option<JsonDocument>)
    ensures
        document_view(document) == json_document(text@),
{
    match serde_json::from_str::<serde_json::Value>(text) {
        Ok(serde_json::Value::Object(map)) => {
            let member = |(key, value): (&String, &serde_json::Value)| JsonMember {
                key: key.clone(),
                text: value.as_str().map(str::to_owned),
            };
            Some(JsonDocument::Object(map.iter().map(member).collect()))
        },
        Ok(_) => Some(JsonDocument::Other),
        Err(_) => None,
    }
}

/// An endpoint with its scheme: the endpoint itself where it begins with
/// `http://` or `https://`, else the endpoint behind `https://`.
pub open spec fn with_scheme(endpoint: Seq<char>) -> Seq<char> {
    if has_http_scheme(endpoint) {
        endpoint
    } else {
        "https://"@ + endpoint
    }
}

/// Gives an endpoint the scheme `https://` where it has no HTTP scheme.
pub fn normalize_endpoint(endpoint: &str) -> (url: String)
    ensures
        url@ == with_scheme(endpoint@),
{
    if begins_with_http_scheme(endpoint) {
        String::from_str(endpoint)
    } else {
        let mut url = String::from_str("https://");
        url.append(endpoint);
        url
    }
}

/// A JSON-RPC request that is ready to be sent.
pub struct RpcRequest {
    /// The address that the request is posted to.
    pub url: String,
    /// The protocol version, the member `jsonrpc` of the request.
    pub jsonrpc: String,
    /// The member `method` of the request.
    pub method: String,
    /// The member `params` of the request, as JSON text.
    pub params: String,
    /// The member `id` of the request.
    pub id: i32,
}

/// What an `RpcRequest` is, as plain values.
pub struct RpcRequestView {
    pub url: Seq<char>,
    pub jsonrpc: Seq<char>,
    pub method: Seq<char>,
    pub params: Seq<char>,
    pub id: i32,
}

impl View for RpcRequest {
    type V = RpcRequestView;

    open spec fn view(&self) -> RpcRequestView {
        RpcRequestView {
            url: self.url@,
            jsonrpc: self.jsonrpc@,
            method: self.method@,
            params: self.params@,
            id: self.id,
        }
    }
}

/// The JSON-RPC request of a call, given whether its parameters are JSON text.
pub open spec fn rpc_request_of(
    rpc_endpoint: Seq<char>,
    method: Seq<char>,
    params_input: Seq<char>,
    id: i32,
    params_are_json: bool,
) -> Result<RpcRequestView, CallError> {
    if params_are_json {
        Ok(
            RpcRequestView {
                url: with_scheme(rpc_endpoint),
                jsonrpc: JSONRPC_VERSION@,
                method,
                params: params_input,
                id,
            },
        )
    } else {
        Err(CallError::InvalidParameters)
    }
}

/// What the result of preparing a JSON-RPC call is, as plain values.
pub open spec fn rpc_result_view(result: Result<RpcRequest, CallError>) -> Result<
    RpcRequestView,
    CallError,
> {
    match result {
        Ok(request) => Ok(request@),
        Err(e) => Err(e),
    }
}

/// Makes the JSON-RPC request of a call, given whether its parameters were
/// found to be JSON text.
pub fn build_rpc_request(
    rpc_endpoint: &str,
    method: &str,
    params_input: &str,
    id: i32,
    params_are_json: bool,
) -> (result: Result<RpcRequest, CallError>)
    ensures
        rpc_result_view(result) == rpc_request_of(
            rpc_endpoint@,
            method@,
            params_input@,
            id,
            params_are_json,
        ),
{
    if !params_are_json {
        return Err(CallError::InvalidParameters);
    }
    Ok(
        RpcRequest {
            url: normalize_endpoint(rpc_endpoint),
            jsonrpc: String::from_str(JSONRPC_VERSION),
            method: String::from_str(method),
            params: String::from_str(params_input),
            id,
        },
    )
}

/// Prepares a JSON-RPC call: the endpoint gets its scheme, and the
/// parameters must be JSON text.
pub fn rpc_request(rpc_endpoint: &str, method: &str, params_input: &str, id: i32) -> (result:
    Result<RpcRequest, CallError>)
    ensures
        rpc_result_view(result) == rpc_request_of(
            rpc_endpoint@,
            method@,
            params_input@,
            id,
            json_document(params_input@) is Some,
        ),
{
    let params_are_json = parse_json(params_input).is_some();
    build_rpc_request(rpc_endpoint, method, params_input, id, params_are_json)
}

/// A header of an HTTP request.
pub struct Header {
    pub name: String,
    pub value: String,
}

/// What a `Header` is, as plain values.
pub struct HeaderView {
    pub name: Seq<char>,
    pub value: Seq<char>,
}

impl View for Header {
    type V = HeaderView;

    open spec fn view(&self) -> HeaderView {
        HeaderView { name: self.name@, value: self.value@ }
    }
}

/// The views of a list of headers, in order.
pub open spec fn headers_view(headers: Seq<Header>) -> Seq<HeaderView> {
    Seq::new(headers.len(), |i: int| headers[i]@)
}

/// The headers that a list of members gives: one for each member whose value
/// is a string, in order. Members with other values are passed over.
pub open spec fn string_members(members: Seq<JsonMemberView>) -> Seq<HeaderView>
    decreases members.len(),
{
    if members.len() == 0 {
        Seq::empty()
    } else {
        match members.last().text {
            Some(text) => string_members(members.drop_last()).push(
                HeaderView { name: members.last().key, value: text },
            ),
            None => string_members(members.drop_last()),
        }
    }
}

/// The headers that a JSON document gives: those of its members where it is
/// an object, and none where it is not.
pub open spec fn headers_of(document: JsonDocumentView) -> Seq<HeaderView> {
    match document {
        JsonDocumentView::Object(members) => string_members(members),
        JsonDocumentView::Other => Seq::empty(),
    }
}

/// An HTTP GET request that is ready to be sent.
pub struct ApiRequest {
    /// The address that is fetched.
    pub url: String,
    /// The headers of the request.
    pub headers: Vec<Header>,
}

/// What an `ApiRequest` is, as plain values.
pub struct ApiRequestView {
    pub url: Seq<char>,
    pub headers: Seq<HeaderView>,
}

impl View for ApiRequest {
    type V = ApiRequestView;

    open spec fn view(&self) -> ApiRequestView {
        ApiRequestView { url: self.url@, headers: headers_view(self.headers@) }
    }
}

/// The HTTP request of a call, given what its headers were read as: absent,
/// no JSON text, or a JSON document.
pub open spec fn api_request_of(
    api_url: Seq<char>,
    headers: Option<Option<JsonDocumentView>>,
) -> Result<ApiRequestView, CallError> {
    match headers {
        None => Ok(ApiRequestView { url: with_scheme(api_url), headers: Seq::empty() }),
        Some(None) => Err(CallError::InvalidHeaders),
        Some(Some(document)) => Ok(
            ApiRequestView { url: with_scheme(api_url), headers: headers_of(document) },
        ),
    }
}

/// What the headers of a call are read as.
pub open spec fn headers_read(optional_headers: Option<Seq<char>>) -> Option<
    Option<JsonDocumentView>,
> {
    match optional_headers {
        None => None,
        Some(text) => Some(json_document(text)),
    }
}

/// What the result of preparing an HTTP call is, as plain values.
pub open spec fn api_result_view(result: Result<ApiRequest, CallError>) -> Result<
    ApiRequestView,
    CallError,
> {
    match result {
        Ok(request) => Ok(request@),
        Err(e) => Err(e),
    }
}

/// Draws the headers of a request from a JSON document.
pub fn select_headers(document: JsonDocument) -> (headers: Vec<Header>)
    ensures
        headers_view(headers@) == headers_of(document@),
{
    let mut headers: Vec<Header> = Vec::new();
    match document {
        JsonDocument::Other => {},
        JsonDocument::Object(members) => {
            let ghost all = members_view(members@);
            for member in it: members
                invariant
                    it.seq() == members@,
                    all == members_view(members@),
                    headers_view(headers@) == string_members(all.take(it.index() as int)),
            {
                assert(all.take(it.index() + 1).drop_last() =~= all.take(it.index() as int));
                match member.text {
                    Some(text) => {
                        let header = Header { name: member.key, value: text };
                        headers.push(header);
                    },
                    None => {},
                }
            }
            assert(all.take(members@.len() as int) =~= all);
        },
    }
    headers
}

/// Makes the HTTP request of a call from what its headers were read as.
pub fn build_api_request(api_url: &str, headers: Option<Option<JsonDocument>>) -> (result: Result<
    ApiRequest,
    CallError,
>)
    ensures
        api_result_view(result) == api_request_of(
            api_url@,
            match headers {
                None => None,
                Some(document) => Some(document_view(document)),
            },
        ),
{
    match headers {
        None => {
            let request = ApiRequest { url: normalize_endpoint(api_url), headers: Vec::new() };
            assert(headers_view(request.headers@) =~= Seq::empty());
            Ok(request)
        },
        Some(None) => Err(CallError::InvalidHeaders),
        Some(Some(document)) => Ok(
            ApiRequest { url: normalize_endpoint(api_url), headers: select_headers(document) },
        ),
    }
}

/// Prepares an HTTP GET call: the address gets its scheme, and the headers,
/// where the caller gave any, must be JSON text.
pub fn api_request(api_url: &str, optional_headers: Option<&str>) -> (result: Result<
    ApiRequest,
    CallError,
>)
    ensures
        api_result_view(result) == api_request_of(
            api_url@,
            headers_read(optional_str(optional_headers)),
        ),
{
    let headers = match optional_headers {
        None => None,
        Some(text) => Some(parse_json(text)),
    };
    build_api_request(api_url, headers)
}

/// A call of the streaming service, as far as it is decided before the
/// package is fetched.
pub struct StreamCall {
    /// The address of the streaming service.
    pub endpoint_url: String,
    /// The token for the streaming service.
    pub token: String,
    /// Where the package is to be had.
    pub package: PackageLocation,
    /// The module whose output is asked for.
    pub module_name: String,
    /// The range expression, where the caller gave one.
    pub range: Option<String>,
}

/// What a `StreamCall` is, as plain values.
pub struct StreamCallView {
    pub endpoint_url: Seq<char>,
    pub token: Seq<char>,
    pub package: PackageLocationView,
    pub module_name: Seq<char>,
    pub range: Option<Seq<char>>,
}

impl View for StreamCall {
    type V = StreamCallView;

    open spec fn view(&self) -> StreamCallView {
        StreamCallView {
            endpoint_url: self.endpoint_url@,
            token: self.token@,
            package: self.package@,
            module_name: self.module_name@,
            range: optional_text(self.range),
        }
    }
}

/// The call of the streaming service that the caller's inputs ask for.
/// Without a token there is none, whatever the other inputs are.
pub open spec fn stream_call_of(
    endpoint_url: Seq<char>,
    package_file: Seq<char>,
    module_name: Seq<char>,
    range: Option<Seq<char>>,
    token: Option<Seq<char>>,
) -> Result<StreamCallView, CallError> {
    match token {
        None => Err(CallError::MissingToken),
        Some(token) => Ok(
            StreamCallView {
                endpoint_url: with_scheme(endpoint_url),
                token,
                package: package_location(package_file),
                module_name,
                range,
            },
        ),
    }
}

/// What the result of preparing a stream call is, as plain values.
pub open spec fn stream_call_result_view(result: Result<StreamCall, CallError>) -> Result<
    StreamCallView,
    CallError,
> {
    match result {
        Ok(call) => Ok(call@),
        Err(e) => Err(e),
    }
}

/// Prepares a call of the streaming service: the token must be there, the
/// endpoint gets its scheme, and the package locator is resolved.
pub fn stream_call(
    endpoint_url: &str,
    package_file: &str,
    module_name: &str,
    range: Option<&str>,
    token: Option<String>,
) -> (result: Result<StreamCall, CallError>)
    ensures
        stream_call_result_view(result) == stream_call_of(
            endpoint_url@,
            package_file@,
            module_name@,
            optional_str(range),
            optional_text(token),
        ),
{
    let token = match token {
        Some(token) => token,
        None => {
            return Err(CallError::MissingToken);
        },
    };
    let range = match range {
        Some(expr) => Some(String::from_str(expr)),
        None => None,
    };
    Ok(
        StreamCall {
            endpoint_url: normalize_endpoint(endpoint_url),
            token,
            package: resolve_package(package_file),
            module_name: String::from_str(module_name),
            range,
        },
    )
}

/// The text that describes a call error.
pub open spec fn call_error_text(e: CallError) -> Seq<char> {
    match e {
        CallError::InvalidParameters => "Invalid JSON for parameters"@,
        CallError::InvalidHeaders => "Invalid JSON for headers"@,
        CallError::MissingToken => "The environment variable SUBSTREAMS_API_TOKEN is not set"@,
    }
}

impl CallError {
    /// The text that describes the error.
    pub fn message(&self) -> (text: String)
        ensures
            text@ == call_error_text(*self),
    {
        match self {
            CallError::InvalidParameters => String::from_str("Invalid JSON for parameters"),
            CallError::InvalidHeaders => String::from_str("Invalid JSON for headers"),
            CallError::MissingToken => String::from_str(
                "The environment variable SUBSTREAMS_API_TOKEN is not set",
            ),
        }
    }
}

} // verus!
