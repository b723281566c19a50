//! The foreign-call boundary: what crosses it, and what an entry point
//! decides between receiving its inputs and handing back its reply.
//!
//! A text input that the caller may leave out arrives as an optional value:
//! none stands for a null pointer. Replies are owned buffers. Each is given
//! to the caller once and released once; the types here cannot be copied.

use crate::calls::{
    api_request, api_request_of, call_error_text, headers_read, json_document, rpc_request,
    rpc_request_of, stream_call, stream_call_of, ApiRequest, ApiRequestView, CallError,
    RpcRequest, RpcRequestView, StreamCall, StreamCallView,
};
use crate::text::{optional_str, optional_text};
use vstd::prelude::*;
use vstd::utf8::{encode_scalar, encode_utf8};

verus! {

/// A byte buffer whose ownership is handed across the boundary.
pub struct FfiByteArray {
    /// The bytes of the buffer.
    pub data: Vec<u8>,
    /// The number of bytes in `data`.
    pub length: usize,
}

impl FfiByteArray {
    /// The length recorded in the buffer is the length of its data.
    pub open spec fn wf(&self) -> bool {
        self.length == self.data@.len()
    }

    /// Takes ownership of `bytes` without copying them.
    pub fn new(bytes: Vec<u8>) -> (buffer: Self)
        ensures
            buffer.wf(),
            buffer.data@ == bytes@,
            buffer.length == bytes@.len(),
    {
        let length: usize = bytes.len();
        FfiByteArray { data: bytes, length }
    }
}

/// Whether `bytes` is a text for a foreign caller: it ends in a zero byte
/// and holds no other.
pub open spec fn nul_terminated(bytes: Seq<u8>) -> bool {
    &&& bytes.len() > 0
    &&& bytes.last() == 0
    &&& forall|i: int| 0 <= i < bytes.len() - 1 ==> bytes[i] != 0
}

/// The UTF-8 bytes of one character hold a zero byte only for the character zero.
proof fn lemma_zero_byte_of_scalar(v: u32)
    requires
        vstd::utf8::is_scalar(v),
    ensures
        encode_scalar(v).contains(0u8) <==> v == 0,
{
    let bytes = encode_scalar(v);
    let a = ((v >> 6) & 0x1F) as u8;
    let b = (v & 0x3F) as u8;
    let c = ((v >> 12) & 0x0F) as u8;
    let d = ((v >> 6) & 0x3F) as u8;
    let e = ((v >> 18) & 0x7) as u8;
    let f = ((v >> 12) & 0x3F) as u8;
    assert(v <= 0x7F ==> (((v & 0x7F) as u8 == 0) <==> v == 0)) by (bit_vector);
    assert(0xC0u8 | a != 0) by (bit_vector);
    assert(0x80u8 | b != 0) by (bit_vector);
    assert(0xE0u8 | c != 0) by (bit_vector);
    assert(0x80u8 | d != 0) by (bit_vector);
    assert(0xF0u8 | e != 0) by (bit_vector);
    assert(0x80u8 | f != 0) by (bit_vector);
    if v == 0 {
        assert(bytes[0] == 0u8);
    } else {
        assert(forall|i: int| 0 <= i < bytes.len() ==> bytes[i] != 0u8);
    }
}

/// The UTF-8 bytes of a text hold a zero byte exactly where the text holds
/// the character zero.
pub proof fn lemma_zero_byte_of_text(text: Seq<char>)
    ensures
        encode_utf8(text).contains(0u8) <==> text.contains('\0'),
    decreases text.len(),
{
    if text.len() > 0 {
        let head = encode_scalar(text[0] as u32);
        let rest = text.drop_first();
        let tail = encode_utf8(rest);
        lemma_zero_byte_of_text(rest);
        vstd::utf8::char_is_scalar(text[0]);
        lemma_zero_byte_of_scalar(text[0] as u32);
        assert(text[0] as u32 == 0 <==> text[0] == '\0') by {
            if text[0] as u32 == 0 {
                vstd::utf8::char_u32_cast(text[0], 0u32);
                vstd::utf8::char_u32_cast('\0', 0u32);
            }
        }
        if text.contains('\0') {
            let i = choose|i: int| 0 <= i < text.len() && text[i] == '\0';
            if i == 0 {
                let j = choose|j: int| 0 <= j < head.len() && head[j] == 0u8;
                assert((head + tail)[j] == 0u8);
            } else {
                assert(rest[i - 1] == '\0');
                let j = choose|j: int| 0 <= j < tail.len() && tail[j] == 0u8;
                assert((head + tail)[head.len() + j] == 0u8);
            }
        }
        if encode_utf8(text).contains(0u8) {
            let j = choose|j: int| 0 <= j < (head + tail).len() && (head + tail)[j] == 0u8;
            if j < head.len() {
                assert(head[j] == 0u8);
            } else {
                assert(tail[j - head.len()] == 0u8);
                let i = choose|i: int| 0 <= i < rest.len() && rest[i] == '\0';
                assert(text[i + 1] == '\0');
            }
        }
    }
}

/// A text buffer whose ownership is handed across the boundary: the bytes of
/// a text in UTF-8, and a zero byte that ends them.
pub struct FfiString {
    bytes: Vec<u8>,
}

impl View for FfiString {
    type V = Seq<u8>;

    closed spec fn view(&self) -> Seq<u8> {
        self.bytes@
    }
}

impl FfiString {
    #[verifier::type_invariant]
    spec fn is_nul_terminated(&self) -> bool {
        nul_terminated(self.bytes@)
    }

    /// Makes the buffer of a text that holds no character zero.
    pub fn new(s: String) -> (buffer: Self)
        requires
            !s@.contains('\0'),
        ensures
            buffer@ == encode_utf8(s@).push(0u8),
            nul_terminated(buffer@),
    {
        let mut bytes = s.as_str().as_bytes_vec();
        proof {
            lemma_zero_byte_of_text(s@);
        }
        bytes.push(0u8);
        FfiString { bytes }
    }

    /// The bytes of the buffer, with the zero byte that ends them.
    pub fn as_bytes_with_nul(&self) -> (bytes: &Vec<u8>)
        ensures
            bytes@ == self@,
            nul_terminated(bytes@),
    {
        proof {
            use_type_invariant(self);
        }
        &self.bytes
    }

    /// Gives the bytes of the buffer away, with the zero byte that ends them.
    pub fn into_bytes_with_nul(self) -> (bytes: Vec<u8>)
        ensures
            bytes@ == self@,
            nul_terminated(bytes@),
    {
        proof {
            use_type_invariant(&self);
        }
        self.bytes
    }
}

/// Whether a text holds the character zero, which no text buffer can hold.
pub fn has_nul(s: &str) -> (found: bool)
    ensures
        found == s@.contains('\0'),
{
    let bytes = s.as_bytes_vec();
    proof {
        lemma_zero_byte_of_text(s@);
    }
    let mut i: usize = 0;
    while i < bytes.len()
        invariant
            i <= bytes.len(),
            bytes@ == encode_utf8(s@),
            encode_utf8(s@).contains(0u8) <==> s@.contains('\0'),
            forall|j: int| 0 <= j < i ==> bytes@[j] != 0,
        decreases bytes.len() - i,
    {
        if bytes[i] == 0 {
            return true;
        }
        i += 1;
    }
    false
}

/// The marker that begins the reply to a call that failed.
pub const ERROR_PREFIX: &'static str = "Error: ";

/// What a reply says of a required input that was a null pointer.
pub const NULL_POINTER_MESSAGE: &'static str = "Null pointer passed";

/// The reply to a call that failed: the marker, then what went wrong.
pub open spec fn error_reply(description: Seq<char>) -> Seq<char> {
    ERROR_PREFIX@ + description
}

/// The reply to a call: its result where it succeeded, else the marked
/// description of its failure.
pub open spec fn reply_text(outcome: Result<Seq<char>, Seq<char>>) -> Seq<char> {
    match outcome {
        Ok(text) => text,
        Err(description) => error_reply(description),
    }
}

/// What a reply says in place of a text that holds the character zero.
pub const ZERO_BYTE_MESSAGE: &'static str = "Reply holds a zero byte";

/// The text that is handed to the caller for a reply: the reply itself, or,
/// where it holds the character zero, the reply that says so.
pub open spec fn deliverable(reply: Seq<char>) -> Seq<char> {
    if reply.contains('\0') {
        error_reply(ZERO_BYTE_MESSAGE@)
    } else {
        reply
    }
}

/// What the outcome of a call is, as plain values.
pub open spec fn outcome_text(outcome: Result<String, String>) -> Result<Seq<char>, Seq<char>> {
    match outcome {
        Ok(text) => Ok(text@),
        Err(description) => Err(description@),
    }
}

/// Makes the reply to a call that failed.
pub fn error_text(description: &str) -> (reply: String)
    ensures
        reply@ == error_reply(description@),
{
    let mut reply = String::from_str(ERROR_PREFIX);
    reply.append(description);
    reply
}

/// Makes the reply to a call from its outcome.
pub fn text_reply(outcome: Result<String, String>) -> (reply: String)
    ensures
        reply@ == reply_text(outcome_text(outcome)),
{
    match outcome {
        Ok(text) => text,
        Err(description) => error_text(description.as_str()),
    }
}

/// The reply that stands in for a text with the character zero holds none itself.
proof fn lemma_zero_byte_reply_is_text()
    ensures
        !error_reply(ZERO_BYTE_MESSAGE@).contains('\0'),
{
    reveal_strlit("Error: ");
    reveal_strlit("Reply holds a zero byte");
    let text = error_reply(ZERO_BYTE_MESSAGE@);
    assert(text.len() == 30);
    assert(forall|i: int| 0 <= i < 30 ==> text[i] != '\0');
}

/// Makes the text buffer of a reply. Every reply gets one: a reply that
/// holds the character zero, which no text buffer can hold, is replaced by
/// the reply that says so.
pub fn reply_buffer(reply: String) -> (buffer: FfiString)
    ensures
        buffer@ == encode_utf8(deliverable(reply@)).push(0u8),
        nul_terminated(buffer@),
{
    if has_nul(reply.as_str()) {
        proof {
            lemma_zero_byte_reply_is_text();
        }
        FfiString::new(error_text(ZERO_BYTE_MESSAGE))
    } else {
        FfiString::new(reply)
    }
}

/// What becomes of a prepared call at the boundary: the request where there
/// is one, else the reply that refuses the call.
pub open spec fn request_or_refusal<T>(prepared: Result<T, CallError>) -> Result<T, Seq<char>> {
    match prepared {
        Ok(request) => Ok(request),
        Err(e) => Err(error_reply(call_error_text(e))),
    }
}

/// Turns the error of a call that cannot be made into the reply that refuses it.
pub fn or_refusal<T>(prepared: Result<T, CallError>) -> (result: Result<T, String>)
    ensures
        match (result, request_or_refusal(prepared)) {
            (Ok(request), Ok(expected)) => request == expected,
            (Err(reply), Err(expected)) => reply@ == expected,
            _ => false,
        },
{
    match prepared {
        Ok(request) => Ok(request),
        Err(e) => Err(error_text(e.message().as_str())),
    }
}

/// The JSON-RPC request that the inputs of a call ask for, or the reply that
/// refuses them: a required input is missing, or the parameters are no JSON text.
pub open spec fn accepted_rpc_call(
    rpc_endpoint: Option<Seq<char>>,
    method: Option<Seq<char>>,
    params_input: Option<Seq<char>>,
    id: i32,
) -> Result<RpcRequestView, Seq<char>> {
    match (rpc_endpoint, method, params_input) {
        (Some(endpoint), Some(method), Some(params)) => match rpc_request_of(
            endpoint,
            method,
            params,
            id,
            json_document(params) is Some,
        ) {
            Ok(request) => Ok(request),
            Err(e) => Err(error_reply(call_error_text(e))),
        },
        _ => Err(error_reply(NULL_POINTER_MESSAGE@)),
    }
}

/// What the result of receiving a JSON-RPC call is, as plain values.
pub open spec fn rpc_call_view(result: Result<RpcRequest, String>) -> Result<
    RpcRequestView,
    Seq<char>,
> {
    match result {
        Ok(request) => Ok(request@),
        Err(reply) => Err(reply@),
    }
}

/// Receives the inputs of a JSON-RPC call. All three texts are required.
/// Returns the request to send, or the reply that refuses the call.
pub fn accept_rpc_call(
    rpc_endpoint: Option<&str>,
    method: Option<&str>,
    params_input: Option<&str>,
    id: i32,
) -> (result: Result<RpcRequest, String>)
    ensures
        rpc_call_view(result) == accepted_rpc_call(
            optional_str(rpc_endpoint),
            optional_str(method),
            optional_str(params_input),
            id,
        ),
{
    match (rpc_endpoint, method, params_input) {
        (Some(endpoint), Some(method), Some(params)) => or_refusal(
            rpc_request(endpoint, method, params, id),
        ),
        _ => Err(error_text(NULL_POINTER_MESSAGE)),
    }
}

/// The HTTP request that the inputs of a call ask for, or the reply that
/// refuses them: the address is missing, or the headers are no JSON text.
pub open spec fn accepted_api_call(
    api_url: Option<Seq<char>>,
    optional_headers: Option<Seq<char>>,
) -> Result<ApiRequestView, Seq<char>> {
    match api_url {
        Some(url) => match api_request_of(url, headers_read(optional_headers)) {
            Ok(request) => Ok(request),
            Err(e) => Err(error_reply(call_error_text(e))),
        },
        None => Err(error_reply(NULL_POINTER_MESSAGE@)),
    }
}

/// What the result of receiving an HTTP call is, as plain values.
pub open spec fn api_call_view(result: Result<ApiRequest, String>) -> Result<
    ApiRequestView,
    Seq<char>,
> {
    match result {
        Ok(request) => Ok(request@),
        Err(reply) => Err(reply@),
    }
}

/// Receives the inputs of an HTTP GET call. The address is required, the
/// headers are not. Returns the request to send, or the reply that refuses
/// the call.
pub fn accept_api_call(api_url: Option<&str>, optional_headers: Option<&str>) -> (result: Result<
    ApiRequest,
    String,
>)
    ensures
        api_call_view(result) == accepted_api_call(
            optional_str(api_url),
            optional_str(optional_headers),
        ),
{
    match api_url {
        Some(url) => or_refusal(api_request(url, optional_headers)),
        None => Err(error_text(NULL_POINTER_MESSAGE)),
    }
}

/// The stream call that the inputs of a call ask for, or none where a
/// required input or the token is missing.
pub open spec fn accepted_substreams_call(
    endpoint_url: Option<Seq<char>>,
    package_file: Option<Seq<char>>,
    module_name: Option<Seq<char>>,
    range: Option<Seq<char>>,
    token: Option<Seq<char>>,
) -> Option<StreamCallView> {
    match (endpoint_url, package_file, module_name) {
        (Some(endpoint), Some(package), Some(module)) => match stream_call_of(
            endpoint,
            package,
            module,
            range,
            token,
        ) {
            Ok(call) => Some(call),
            Err(_) => None,
        },
        _ => None,
    }
}

/// The view of a stream call that may be absent.
pub open spec fn stream_call_view(call: Option<StreamCall>) -> Option<StreamCallView> {
    match call {
        Some(call) => Some(call@),
        None => None,
    }
}

/// Receives the inputs of a stream call. The endpoint, the package locator
/// and the module name are required, the range is not. Returns the call to
/// make, or none where the reply is a null pointer.
pub fn accept_substreams_call(
    endpoint_url: Option<&str>,
    package_file: Option<&str>,
    module_name: Option<&str>,
    range: Option<&str>,
    token: Option<String>,
) -> (call: Option<StreamCall>)
    ensures
        stream_call_view(call) == accepted_substreams_call(
            optional_str(endpoint_url),
            optional_str(package_file),
            optional_str(module_name),
            optional_str(range),
            optional_text(token),
        ),
{
    match (endpoint_url, package_file, module_name) {
        (Some(endpoint), Some(package), Some(module)) => match stream_call(
            endpoint,
            package,
            module,
            range,
            token,
        ) {
            Ok(call) => Some(call),
            Err(_) => None,
        },
        _ => None,
    }
}

/// Whether `arrays` hold `payloads`, one buffer for each payload, in order.
pub open spec fn arrays_hold(arrays: Seq<FfiByteArray>, payloads: Seq<Vec<u8>>) -> bool {
    &&& arrays.len() == payloads.len()
    &&& forall|i: int|
        0 <= i < arrays.len() ==> (#[trigger] arrays[i]).wf() && arrays[i].data@ == payloads[i]@
}

/// Makes the reply to a stream call from its outcome: one buffer for each
/// output and their number in `out_length`, or, where the call failed, none
/// and `out_length` as it was.
pub fn byte_array_reply<E>(outcome: Result<Vec<Vec<u8>>, E>, out_length: &mut usize) -> (reply:
    Option<Vec<FfiByteArray>>)
    ensures
        match outcome {
            Ok(payloads) => reply matches Some(arrays) && arrays_hold(arrays@, payloads@)
                && *final(out_length) == payloads@.len(),
            Err(_) => reply is None && *final(out_length) == *old(out_length),
        },
{
    match outcome {
        Ok(payloads) => {
            let mut arrays: Vec<FfiByteArray> = Vec::new();
            for payload in it: payloads
                invariant
                    it.seq() == payloads@,
                    arrays_hold(arrays@, payloads@.take(it.index() as int)),
            {
                let array = FfiByteArray::new(payload);
                arrays.push(array);
            }
            *out_length = arrays.len();
            Some(arrays)
        },
        Err(_) => None,
    }
}

} // verus!
