use substreams_bridge::ffi::{
    accept_api_call, accept_rpc_call, accept_substreams_call, byte_array_reply, error_text,
    has_nul, reply_buffer, text_reply, FfiByteArray, FfiString,
};

#[test]
fn byte_array_keeps_its_bytes_and_their_number() {
    let buffer = FfiByteArray::new(vec![1, 2, 3]);
    assert_eq!(buffer.data, vec![1, 2, 3]);
    assert_eq!(buffer.length, 3);
    let empty = FfiByteArray::new(Vec::new());
    assert_eq!(empty.length, 0);
}

#[test]
fn text_buffer_ends_in_a_zero_byte() {
    let buffer = FfiString::new("h\u{e9}".to_string());
    assert_eq!(buffer.as_bytes_with_nul(), &vec![b'h', 0xc3, 0xa9, 0]);
    assert_eq!(buffer.into_bytes_with_nul(), vec![b'h', 0xc3, 0xa9, 0]);
    assert_eq!(FfiString::new(String::new()).into_bytes_with_nul(), vec![0]);
}

#[test]
fn zero_bytes_are_found() {
    assert!(!has_nul("plain"));
    assert!(!has_nul(""));
    assert!(has_nul("a\0b"));
}

#[test]
fn failure_is_marked_in_the_reply() {
    assert_eq!(text_reply(Ok("{\"result\":1}".to_string())), "{\"result\":1}");
    assert_eq!(
        text_reply(Err("Failed to send RPC call".to_string())),
        "Error: Failed to send RPC call"
    );
    assert_eq!(error_text("x"), "Error: x");
}

#[test]
fn rpc_call_refuses_a_null_pointer() {
    for inputs in [
        (None, Some("m"), Some("[]")),
        (Some("e"), None, Some("[]")),
        (Some("e"), Some("m"), None),
        (None, None, None),
    ] {
        match accept_rpc_call(inputs.0, inputs.1, inputs.2, 1) {
            Err(reply) => assert_eq!(reply, "Error: Null pointer passed"),
            Ok(_) => panic!("expected a refusal"),
        }
    }
}

#[test]
fn rpc_call_refuses_parameters_that_are_no_json() {
    match accept_rpc_call(Some("e"), Some("m"), Some("nope"), 1) {
        Err(reply) => assert_eq!(reply, "Error: Invalid JSON for parameters"),
        Ok(_) => panic!("expected a refusal"),
    }
}

#[test]
fn rpc_call_is_accepted() {
    match accept_rpc_call(Some("rpc.example.io"), Some("eth_chainId"), Some("[]"), -3) {
        Ok(request) => {
            assert_eq!(request.url, "https://rpc.example.io");
            assert_eq!(request.method, "eth_chainId");
            assert_eq!(request.params, "[]");
            assert_eq!(request.id, -3);
        }
        Err(_) => panic!("expected a request"),
    }
}

#[test]
fn api_call_refuses_a_null_address() {
    match accept_api_call(None, Some("{}")) {
        Err(reply) => assert_eq!(reply, "Error: Null pointer passed"),
        Ok(_) => panic!("expected a refusal"),
    }
}

#[test]
fn api_call_takes_headers_or_none() {
    match accept_api_call(Some("example.com"), None) {
        Ok(request) => {
            assert_eq!(request.url, "https://example.com");
            assert!(request.headers.is_empty());
        }
        Err(_) => panic!("expected a request"),
    }
    match accept_api_call(Some("example.com"), Some(r#"{"Accept": "text/plain"}"#)) {
        Ok(request) => {
            assert_eq!(request.headers.len(), 1);
            assert_eq!(request.headers[0].name, "Accept");
            assert_eq!(request.headers[0].value, "text/plain");
        }
        Err(_) => panic!("expected a request"),
    }
    match accept_api_call(Some("example.com"), Some("{")) {
        Err(reply) => assert_eq!(reply, "Error: Invalid JSON for headers"),
        Ok(_) => panic!("expected a refusal"),
    }
}

#[test]
fn substreams_call_needs_its_three_texts_and_the_token() {
    let token = || Some("t".to_string());
    assert!(accept_substreams_call(None, Some("p"), Some("m"), None, token()).is_none());
    assert!(accept_substreams_call(Some("e"), None, Some("m"), None, token()).is_none());
    assert!(accept_substreams_call(Some("e"), Some("p"), None, None, token()).is_none());
    assert!(accept_substreams_call(Some("e"), Some("p"), Some("m"), None, None).is_none());
    let call = accept_substreams_call(Some("e"), Some("p"), Some("m"), None, token()).unwrap();
    assert_eq!(call.endpoint_url, "https://e");
    assert_eq!(call.module_name, "m");
    assert_eq!(call.range, None);
}

#[test]
fn byte_array_reply_counts_its_buffers() {
    let mut count: usize = 99;
    let outcome: Result<Vec<Vec<u8>>, String> = Ok(vec![vec![1, 2], vec![], vec![3]]);
    let arrays = byte_array_reply(outcome, &mut count).unwrap();
    assert_eq!(count, 3);
    assert_eq!(arrays.len(), 3);
    assert_eq!(arrays[0].data, vec![1, 2]);
    assert_eq!(arrays[0].length, 2);
    assert_eq!(arrays[1].length, 0);
    assert_eq!(arrays[2].data, vec![3]);
}

#[test]
fn byte_array_reply_leaves_the_count_on_failure() {
    let mut count: usize = 99;
    let outcome: Result<Vec<Vec<u8>>, String> = Err("boom".to_string());
    assert!(byte_array_reply(outcome, &mut count).is_none());
    assert_eq!(count, 99);
}

#[test]
fn every_reply_gets_a_buffer() {
    assert_eq!(reply_buffer("ok".to_string()).into_bytes_with_nul(), b"ok\0".to_vec());
    assert_eq!(reply_buffer(String::new()).into_bytes_with_nul(), vec![0]);
    assert_eq!(
        reply_buffer("a\0b".to_string()).into_bytes_with_nul(),
        b"Error: Reply holds a zero byte\0".to_vec()
    );
}
