use substreams_bridge::calls::{
    api_request, build_api_request, build_rpc_request, normalize_endpoint, rpc_request,
    select_headers, stream_call, CallError, JsonDocument, JsonMember,
};
use substreams_bridge::locator::PackageLocation;

#[test]
fn endpoint_without_scheme_gets_https() {
    assert_eq!(normalize_endpoint("mainnet.example.io:443"), "https://mainnet.example.io:443");
    assert_eq!(normalize_endpoint(""), "https://");
}

#[test]
fn endpoint_that_only_begins_with_http_has_no_scheme() {
    assert_eq!(normalize_endpoint("httpbin.org/rpc"), "https://httpbin.org/rpc");
    assert_eq!(normalize_endpoint("http"), "https://http");
    assert_eq!(normalize_endpoint("https:/x"), "https://https:/x");
    match rpc_request("httpbin.org/rpc", "m", "[]", 1) {
        Ok(request) => assert_eq!(request.url, "https://httpbin.org/rpc"),
        Err(_) => panic!("expected a request"),
    }
}

#[test]
fn endpoint_with_scheme_is_kept() {
    assert_eq!(normalize_endpoint("http://localhost:8545"), "http://localhost:8545");
    assert_eq!(normalize_endpoint("https://rpc.example.io"), "https://rpc.example.io");
}

#[test]
fn rpc_request_carries_its_inputs() {
    match rpc_request("rpc.example.io", "eth_blockNumber", "[]", 7) {
        Ok(request) => {
            assert_eq!(request.url, "https://rpc.example.io");
            assert_eq!(request.jsonrpc, "2.0");
            assert_eq!(request.method, "eth_blockNumber");
            assert_eq!(request.params, "[]");
            assert_eq!(request.id, 7);
        }
        Err(_) => panic!("expected a request"),
    }
}

#[test]
fn rpc_parameters_must_be_json() {
    assert!(matches!(
        rpc_request("rpc.example.io", "eth_call", "{not json", 1),
        Err(CallError::InvalidParameters)
    ));
    assert!(matches!(
        rpc_request("rpc.example.io", "eth_call", "", 1),
        Err(CallError::InvalidParameters)
    ));
    assert!(matches!(
        build_rpc_request("rpc.example.io", "eth_call", "[1]", 1, false),
        Err(CallError::InvalidParameters)
    ));
    assert!(build_rpc_request("rpc.example.io", "eth_call", "[1]", 1, true).is_ok());
}

#[test]
fn api_request_without_headers() {
    match api_request("example.com/data", None) {
        Ok(request) => {
            assert_eq!(request.url, "https://example.com/data");
            assert!(request.headers.is_empty());
        }
        Err(_) => panic!("expected a request"),
    }
}

#[test]
fn api_headers_are_the_string_members() {
    let text = r#"{"Accept": "text/plain", "Retries": 3, "X-Key": "abc", "Flag": true}"#;
    match api_request("https://example.com", Some(text)) {
        Ok(request) => {
            let mut pairs: Vec<(String, String)> =
                request.headers.into_iter().map(|h| (h.name, h.value)).collect();
            pairs.sort();
            assert_eq!(
                pairs,
                vec![
                    ("Accept".to_string(), "text/plain".to_string()),
                    ("X-Key".to_string(), "abc".to_string()),
                ]
            );
        }
        Err(_) => panic!("expected a request"),
    }
}

#[test]
fn api_headers_that_are_no_object_give_no_headers() {
    match api_request("https://example.com", Some("[1, 2]")) {
        Ok(request) => assert!(request.headers.is_empty()),
        Err(_) => panic!("expected a request"),
    }
}

#[test]
fn api_headers_must_be_json() {
    assert!(matches!(
        api_request("https://example.com", Some("Accept: text/plain")),
        Err(CallError::InvalidHeaders)
    ));
    assert!(matches!(
        build_api_request("https://example.com", Some(None)),
        Err(CallError::InvalidHeaders)
    ));
}

#[test]
fn headers_are_selected_in_order() {
    let document = JsonDocument::Object(vec![
        JsonMember { key: "b".to_string(), text: Some("2".to_string()) },
        JsonMember { key: "skip".to_string(), text: None },
        JsonMember { key: "a".to_string(), text: Some("1".to_string()) },
    ]);
    let headers = select_headers(document);
    assert_eq!(headers.len(), 2);
    assert_eq!(headers[0].name, "b");
    assert_eq!(headers[0].value, "2");
    assert_eq!(headers[1].name, "a");
    assert_eq!(headers[1].value, "1");
    assert!(select_headers(JsonDocument::Other).is_empty());
}

#[test]
fn stream_call_needs_a_token() {
    assert!(matches!(
        stream_call("mainnet.example.io:443", "foo@v1.2.3", "graph_out", None, None),
        Err(CallError::MissingToken)
    ));
}

#[test]
fn stream_call_resolves_endpoint_and_package() {
    let token = Some("secret".to_string());
    match stream_call("mainnet.example.io:443", "foo@v1.2.3", "graph_out", Some("1:10"), token) {
        Ok(call) => {
            assert_eq!(call.endpoint_url, "https://mainnet.example.io:443");
            assert_eq!(call.token, "secret");
            assert_eq!(call.module_name, "graph_out");
            assert_eq!(call.range, Some("1:10".to_string()));
            match call.package {
                PackageLocation::Registry(url) => {
                    assert_eq!(url, "https://spkg.io/v1/packages/foo/v1.2.3")
                }
                _ => panic!("expected a registry address"),
            }
        }
        Err(_) => panic!("expected a call"),
    }
}

#[test]
fn call_error_messages() {
    assert_eq!(CallError::InvalidParameters.message(), "Invalid JSON for parameters");
    assert_eq!(CallError::InvalidHeaders.message(), "Invalid JSON for headers");
    assert_eq!(
        CallError::MissingToken.message(),
        "The environment variable SUBSTREAMS_API_TOKEN is not set"
    );
}
