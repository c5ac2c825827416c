use hub::errors::NetworkError;
use hub::network::{
    response_of, Method, NetworkManagerActor, NetworkRequest, NetworkResponse, Payload,
    TransportOutcome, DEFAULT_MAX_CONNECTIONS, STATUS_INTERNAL_SERVER_ERROR,
};

fn domain(url: &str) -> String {
    NetworkManagerActor::new().extract_domain(url)
}

#[test]
fn domain_of_a_url_with_scheme_and_path() {
    assert_eq!(domain("https://api.example.com/data"), "api.example.com");
    assert_eq!(domain("http://host:8080/a/b?c=d"), "host:8080");
    assert_eq!(domain("https://api.example.com"), "api.example.com");
}

#[test]
fn domain_of_a_url_without_scheme() {
    assert_eq!(domain("example.com/path"), "example.com");
    assert_eq!(domain("example.com"), "example.com");
    assert_eq!(domain("/only/path"), "");
}

#[test]
fn domain_of_edge_cases() {
    assert_eq!(domain(""), "");
    assert_eq!(domain("://"), "");
    assert_eq!(domain("https://"), "");
    assert_eq!(domain("a://b://c"), "b");
    assert_eq!(domain("a://b/c://d"), "b");
    assert_eq!(domain("x:/y"), "x:");
    assert_eq!(domain("a:///b"), "");
    assert_eq!(domain("https://bücher.example/ü"), "bücher.example");
}

#[test]
fn domain_agrees_with_splitting() {
    for url in [
        "https://api.example.com/data",
        "ftp://a.b/c://d",
        "no-scheme/path",
        "s://",
        "s://h",
        ":///",
        "a://b://c/d",
        "://x",
        "x://://y",
    ] {
        let expected = url.split("://").nth(1).unwrap_or(url).split('/').next().unwrap_or(url);
        assert_eq!(domain(url), expected, "{}", url);
    }
}

#[test]
fn the_request_after_the_ceiling_is_rejected_and_counters_return_to_zero() {
    let mut network = NetworkManagerActor::new();
    assert_eq!(network.max_connections(), 10);
    assert_eq!(DEFAULT_MAX_CONNECTIONS, 10);
    let url = "https://api.example.com/data";
    let mut admitted = Vec::new();
    for i in 0..10 {
        let admission = network.begin_request(url).expect("below the ceiling");
        assert_eq!(admission.domain_name(), "api.example.com");
        assert_eq!(network.connections("api.example.com"), i + 1);
        admitted.push(admission);
    }
    match network.begin_request(url) {
        Err(NetworkError::TooManyConnections(d)) => assert_eq!(d, "api.example.com"),
        other => panic!("unexpected answer {:?}", other),
    }
    assert_eq!(network.connections("api.example.com"), 10);
    for admission in admitted {
        let _ = network.finish_request(admission, TransportOutcome::Failed("timeout".to_string()));
    }
    assert_eq!(network.connections("api.example.com"), 0);
    assert!(network.begin_request(url).is_ok());
}

#[test]
fn domains_are_counted_apart() {
    let mut network = NetworkManagerActor::new();
    let mut held = Vec::new();
    for _ in 0..10 {
        held.push(network.begin_request("https://a.example/x").unwrap());
    }
    assert!(network.begin_request("https://a.example/y").is_err());
    let other = network.begin_request("https://b.example/x").unwrap();
    assert_eq!(other.domain_name(), "b.example");
    assert_eq!(network.connections("a.example"), 10);
    assert_eq!(network.connections("b.example"), 1);
    assert_eq!(network.connections("c.example"), 0);
}

#[test]
fn each_finished_request_frees_one_slot() {
    let mut network = NetworkManagerActor::new();
    let first = network.begin_request("https://h/x").unwrap();
    let second = network.begin_request("https://h/y").unwrap();
    assert_eq!(network.connections("h"), 2);
    let _ = network.finish_request(first, TransportOutcome::Failed("a".to_string()));
    assert_eq!(network.connections("h"), 1);
    let _ = network.finish_request(second, TransportOutcome::Failed("b".to_string()));
    assert_eq!(network.connections("h"), 0);
}

#[test]
fn a_failed_client_build_releases_the_slot() {
    let mut network = NetworkManagerActor::new();
    let admission = network.begin_request("https://h/x").unwrap();
    let e = network.abort_request(admission, "no tls".to_string());
    assert_eq!(network.connections("h"), 0);
    match &e {
        NetworkError::ClientBuild(cause) => assert_eq!(cause, "no tls"),
        other => panic!("unexpected error {:?}", other),
    }
    assert_eq!(e.message(), "Network error: Failed to build HTTP client: no tls");
}

#[test]
fn too_many_connections_text() {
    let e = NetworkError::TooManyConnections("api.example.com".to_string());
    assert_eq!(e.message(), "Too many connections to domain: api.example.com");
}

#[test]
fn a_response_with_body_is_passed_on() {
    let headers = vec![("content-type".to_string(), b"text/plain".to_vec())];
    let r = response_of(TransportOutcome::Response {
        status: 200,
        headers: headers.clone(),
        body: Ok(b"hello".to_vec()),
    });
    assert_eq!(r.status, 200);
    assert_eq!(r.headers, headers);
    assert_eq!(r.body, b"hello");
    assert_eq!(r.error, None);
    assert!(r.is_success());
}

#[test]
fn an_unreadable_body_becomes_an_error_with_the_status_kept() {
    let r = response_of(TransportOutcome::Response {
        status: 200,
        headers: vec![("a".to_string(), vec![1])],
        body: Err("connection reset".to_string()),
    });
    assert_eq!(r.status, 200);
    assert_eq!(r.headers.len(), 1);
    assert!(r.body.is_empty());
    assert_eq!(r.error.as_deref(), Some("Failed to read response body: connection reset"));
    assert!(!r.is_success());
}

#[test]
fn a_failed_transfer_becomes_status_500() {
    let mut network = NetworkManagerActor::new();
    let admission = network.begin_request("https://h/x").unwrap();
    let r = network.finish_request(admission, TransportOutcome::Failed("dns".to_string()));
    assert_eq!(r.status, STATUS_INTERNAL_SERVER_ERROR);
    assert_eq!(r.status, 500);
    assert!(r.headers.is_empty());
    assert!(r.body.is_empty());
    assert_eq!(r.error.as_deref(), Some("Request failed: dns"));
    assert!(!r.is_success());
    assert_eq!(network.connections("h"), 0);
}

fn response(status: u16, error: Option<&str>, body: &[u8]) -> NetworkResponse {
    NetworkResponse {
        status,
        headers: Vec::new(),
        body: body.to_vec(),
        error: error.map(|e| e.to_string()),
    }
}

#[test]
fn success_is_a_status_in_the_200s_without_error() {
    assert!(response(200, None, b"").is_success());
    assert!(response(299, None, b"").is_success());
    assert!(!response(199, None, b"").is_success());
    assert!(!response(300, None, b"").is_success());
    assert!(!response(404, None, b"").is_success());
    assert!(!response(200, Some("x"), b"").is_success());
}

#[test]
fn text_of_a_body() {
    assert_eq!(response(200, None, "héllo".as_bytes()).text().unwrap(), "héllo");
    assert_eq!(response(200, None, b"").text().unwrap(), "");
    assert!(response(200, None, &[0xff, 0xfe]).text().is_err());
    assert!(response(200, None, &[0xc3]).text().is_err());
}

#[test]
fn a_new_request_is_a_plain_get() {
    let r = NetworkRequest::new("https://api.example.com/data");
    assert_eq!(r.url, "https://api.example.com/data");
    assert_eq!(r.method, Method::Get);
    assert_eq!(r.headers.len(), 0);
    assert!(r.body.is_none());
    assert!(r.timeout_ms.is_none());
    assert!(r.json.is_none());
}

#[test]
fn builder_sets_method_timeout_and_body() {
    let r = NetworkRequest::new("u").method(Method::Put).timeout(5000).body(vec![0, 1, 2]);
    assert_eq!(r.method, Method::Put);
    assert_eq!(r.timeout_ms, Some(5000));
    assert_eq!(r.body, Some(vec![0, 1, 2]));
    assert_eq!(r.url, "u");
}

#[test]
fn header_names_are_normalised_and_values_kept() {
    let r = NetworkRequest::new("u")
        .header("Accept", "application/json")
        .header("X-Custom-Thing", "Value With Case");
    assert_eq!(r.headers.len(), 2);
    assert_eq!(r.headers.get(&"accept".to_string()).map(|v| v.as_str()), Some("application/json"));
    assert_eq!(
        r.headers.get(&"x-custom-thing".to_string()).map(|v| v.as_str()),
        Some("Value With Case")
    );
    assert!(r.headers.get(&"Accept".to_string()).is_none());
}

#[test]
fn a_header_given_twice_keeps_the_last_value() {
    let r = NetworkRequest::new("u").header("accept", "a").header("ACCEPT", "b");
    assert_eq!(r.headers.len(), 1);
    assert_eq!(r.headers.get(&"accept".to_string()).map(|v| v.as_str()), Some("b"));
}

#[test]
fn unacceptable_headers_are_left_out() {
    let r = NetworkRequest::new("u")
        .header("bad name", "v")
        .header("", "v")
        .header("na\u{e9}me", "v")
        .header("ok", "line\nbreak")
        .header("ok2", "del\u{7f}");
    assert_eq!(r.headers.len(), 0);
    let r = NetworkRequest::new("u").header("ok", "tab\tand caf\u{e9}");
    assert_eq!(r.headers.get(&"ok".to_string()).map(|v| v.as_str()), Some("tab\tand caf\u{e9}"));
}

#[test]
fn a_parsed_header_is_kept_only_where_name_and_value_were_accepted() {
    let r = NetworkRequest::new("u")
        .header_parsed(Some("accept".to_string()), "a", true)
        .header_parsed(Some("x-no".to_string()), "b", false)
        .header_parsed(None, "c", true)
        .header_parsed(None, "d", false);
    assert_eq!(r.headers.len(), 1);
    assert_eq!(r.headers.get(&"accept".to_string()).map(|v| v.as_str()), Some("a"));
    let r = r.header_parsed(Some("accept".to_string()), "z", true);
    assert_eq!(r.headers.len(), 1);
    assert_eq!(r.headers.get(&"accept".to_string()).map(|v| v.as_str()), Some("z"));
}

#[test]
fn a_request_that_begins_and_ends_leaves_the_counter_as_it_was() {
    let mut network = NetworkManagerActor::new();
    let held = network.begin_request("https://h/a").unwrap();
    for outcome in [
        TransportOutcome::Failed("timeout".to_string()),
        TransportOutcome::Response { status: 200, headers: Vec::new(), body: Ok(vec![1]) },
        TransportOutcome::Response { status: 404, headers: Vec::new(), body: Ok(Vec::new()) },
        TransportOutcome::Response { status: 200, headers: Vec::new(), body: Err("cut".to_string()) },
    ] {
        let admission = network.begin_request("https://h/b").unwrap();
        assert_eq!(network.connections("h"), 2);
        let _ = network.finish_request(admission, outcome);
        assert_eq!(network.connections("h"), 1);
    }
    let _ = network.finish_request(held, TransportOutcome::Failed("x".to_string()));
    assert_eq!(network.connections("h"), 0);
}

#[test]
fn json_payload_is_taken_from_a_successful_conversion() {
    let value = serde_json::to_value(vec![1, 2, 3]);
    let r = NetworkRequest::new("u").json(value);
    assert_eq!(r.json, Some(serde_json::Value::from(vec![1, 2, 3])));
    let failed: Result<serde_json::Value, serde_json::Error> =
        serde_json::from_str::<serde_json::Value>("{");
    assert!(failed.is_err());
    let r = r.json(failed);
    assert_eq!(r.json, Some(serde_json::Value::from(vec![1, 2, 3])));
    let r = NetworkRequest::new("u").json(serde_json::from_str::<serde_json::Value>("nope"));
    assert!(r.json.is_none());
}

#[test]
fn the_json_payload_goes_before_the_body() {
    let r = NetworkRequest::new("u").body(vec![1]).json(serde_json::to_value("x"));
    let (url, method, headers, timeout, payload) = r.into_parts();
    assert_eq!(url, "u");
    assert_eq!(method, Method::Get);
    assert_eq!(headers.len(), 0);
    assert_eq!(timeout, None);
    assert!(matches!(payload, Payload::Json(v) if v == serde_json::Value::from("x")));
    let (_, _, _, _, payload) = NetworkRequest::new("u").body(vec![1]).into_parts();
    assert!(matches!(payload, Payload::Bytes(b) if b == vec![1]));
    let (_, _, _, _, payload) = NetworkRequest::new("u").into_parts();
    assert!(matches!(payload, Payload::Empty));
}

#[test]
fn method_names() {
    assert_eq!(Method::Get.as_str(), "GET");
    assert_eq!(Method::Post.as_str(), "POST");
    assert_eq!(Method::Put.as_str(), "PUT");
    assert_eq!(Method::Delete.as_str(), "DELETE");
    assert_eq!(Method::Head.as_str(), "HEAD");
    assert_eq!(Method::Options.as_str(), "OPTIONS");
    assert_eq!(Method::Connect.as_str(), "CONNECT");
    assert_eq!(Method::Patch.as_str(), "PATCH");
    assert_eq!(Method::Trace.as_str(), "TRACE");
}
