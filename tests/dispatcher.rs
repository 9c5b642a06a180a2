use consul_oxide::{
    build_read, build_write, finish_read, finish_write, parse_decimal, render_decimal, Config,
    Consistency, ConsulError, DecodeFailure, HttpMethod, HttpResponse, QueryOptions, WriteMeta,
    WriteOptions,
};

fn pair(k: &str, v: &str) -> (String, String) {
    (k.to_string(), v.to_string())
}

fn response(status: u16, index: Option<&str>, body: &[u8]) -> HttpResponse {
    HttpResponse {
        status,
        index: index.map(|s| s.to_string()),
        known_leader: None,
        content_hash: None,
        elapsed_ms: 12,
        body: body.to_vec(),
    }
}

fn config_with_dc(dc: Option<&str>, token: Option<&str>) -> Config {
    let mut c = Config::default();
    c.datacenter = dc.map(|s| s.to_string());
    c.token = token.map(|s| s.to_string());
    c
}

#[test]
fn absent_options_equal_default_options() {
    let c = config_with_dc(Some("dc1"), None);
    let a = build_read("/v1/catalog/nodes", &c, vec![], None);
    let d = QueryOptions::default();
    let b = build_read("/v1/catalog/nodes", &c, vec![], Some(&d));
    assert_eq!(a, b);
    assert_eq!(a.query, vec![pair("dc", "dc1")]);
    assert_eq!(a.method, HttpMethod::Get);
    assert_eq!(a.url, "http://127.0.0.1:8500/v1/catalog/nodes");
    assert_eq!(a.body, None);
}

#[test]
fn zero_wait_index_sends_no_wait_parameters() {
    let c = Config::default();
    let mut q = QueryOptions::default();
    q.wait_index = Some(0);
    q.wait_time_secs = Some(10);
    let zero = build_read("/v1/catalog/nodes", &c, vec![], Some(&q));
    q.wait_index = None;
    let none = build_read("/v1/catalog/nodes", &c, vec![], Some(&q));
    assert_eq!(zero.query, none.query);
    assert!(zero.query.is_empty());
}

#[test]
fn wait_index_sends_index_and_default_wait() {
    let c = Config::default();
    let mut q = QueryOptions::default();
    q.wait_index = Some(42);
    let r = build_read("/v1/catalog/services", &c, vec![], Some(&q));
    assert_eq!(r.query, vec![pair("index", "42"), pair("wait", "300s")]);
}

#[test]
fn wait_time_of_call_beats_config_wait_time() {
    let mut c = Config::default();
    c.wait_time_secs = Some(60);
    let mut q = QueryOptions::default();
    q.wait_index = Some(7);
    let r = build_read("/v1/catalog/services", &c, vec![], Some(&q));
    assert_eq!(r.query, vec![pair("index", "7"), pair("wait", "60s")]);
    q.wait_time_secs = Some(10);
    let r = build_read("/v1/catalog/services", &c, vec![], Some(&q));
    assert_eq!(r.query, vec![pair("index", "7"), pair("wait", "10s")]);
}

#[test]
fn call_datacenter_and_token_beat_client_defaults() {
    let c = config_with_dc(Some("dc1"), Some("client-token"));
    let mut q = QueryOptions::default();
    q.datacenter = Some("dc2".to_string());
    q.token = Some("call-token".to_string());
    let r = build_read("/v1/catalog/nodes", &c, vec![pair("filter", "x")], Some(&q));
    assert_eq!(r.query, vec![pair("filter", "x"), pair("dc", "dc2")]);
    assert_eq!(r.token, Some("call-token".to_string()));
    let r = build_read("/v1/catalog/nodes", &c, vec![pair("filter", "x")], None);
    assert_eq!(r.query, vec![pair("filter", "x"), pair("dc", "dc1")]);
    assert_eq!(r.token, Some("client-token".to_string()));
}

#[test]
fn write_datacenter_and_token_precedence() {
    let c = config_with_dc(Some("dc1"), Some("client-token"));
    let w = WriteOptions { datacenter: Some("dc3".to_string()), token: Some("w".to_string()) };
    let r = build_write("/v1/catalog/deregister", None, &c, vec![], Some(&w));
    assert_eq!(r.method, HttpMethod::Put);
    assert_eq!(r.query, vec![pair("dc", "dc3")]);
    assert_eq!(r.token, Some("w".to_string()));
    assert_eq!(r.body, None);
    let r = build_write("/v1/catalog/deregister", Some(b"{}".to_vec()), &c, vec![], None);
    assert_eq!(r.query, vec![pair("dc", "dc1")]);
    assert_eq!(r.token, Some("client-token".to_string()));
    assert_eq!(r.body, Some(b"{}".to_vec()));
}

#[test]
fn consistency_modes_become_flags() {
    let c = Config::default();
    let mut q = QueryOptions::default();
    q.consistency = Consistency::Stale;
    let r = build_read("/v1/catalog/nodes", &c, vec![], Some(&q));
    assert_eq!(r.query, vec![pair("stale", "")]);
    q.consistency = Consistency::Consistent;
    q.wait_index = Some(3);
    let r = build_read("/v1/catalog/nodes", &c, vec![], Some(&q));
    assert_eq!(r.query, vec![pair("consistent", ""), pair("index", "3"), pair("wait", "300s")]);
}

#[test]
fn failed_status_is_reported_without_decoding_body() {
    let r = finish_read(response(500, Some("5"), b"[\"valid\", \"json\"]"));
    assert_eq!(r, Err(ConsulError::RequestFailed(500)));
    let r = finish_read(response(404, None, b"not json"));
    assert_eq!(r, Err(ConsulError::RequestFailed(404)));
    let r = finish_write(response(500, None, b"{}"));
    assert_eq!(r, Err(ConsulError::RequestFailed(500)));
}

#[test]
fn missing_index_header_is_a_decode_error() {
    let r = finish_read(response(200, None, b"[]"));
    assert_eq!(r, Err(ConsulError::DecodeError(DecodeFailure::MissingIndex)));
}

#[test]
fn bad_index_header_is_a_decode_error() {
    for h in ["", "+", "++7", "-1", "-0", "abc", "12a", " 7", "18446744073709551616"] {
        let r = finish_read(response(200, Some(h), b"[]"));
        assert_eq!(r, Err(ConsulError::DecodeError(DecodeFailure::InvalidIndex)), "{}", h);
    }
}

#[test]
fn read_meta_is_decoded_from_headers() {
    let mut resp = response(200, Some("18446744073709551615"), b"[1]");
    resp.known_leader = Some("true".to_string());
    resp.content_hash = Some("abc123".to_string());
    let (body, meta) = finish_read(resp).unwrap();
    assert_eq!(body, b"[1]".to_vec());
    assert_eq!(meta.last_index, u64::MAX);
    assert!(meta.known_leader);
    assert_eq!(meta.last_content_hash, Some("abc123".to_string()));
    assert_eq!(meta.request_time_ms, 12);
    let mut resp = response(204, Some("9"), b"");
    resp.known_leader = Some("false".to_string());
    let (_, meta) = finish_read(resp).unwrap();
    assert_eq!(meta.last_index, 9);
    assert!(!meta.known_leader);
    assert_eq!(meta.last_content_hash, None);
}

#[test]
fn index_header_with_plus_sign_is_accepted() {
    let (_, meta) = finish_read(response(200, Some("+7"), b"[]")).unwrap();
    assert_eq!(meta.last_index, 7);
}

#[test]
fn index_does_not_go_down_over_reads() {
    let mut last = 0;
    for h in ["5", "5", "9", "0012"] {
        let (_, meta) = finish_read(response(200, Some(h), b"[]")).unwrap();
        assert!(meta.last_index >= last);
        last = meta.last_index;
    }
    assert_eq!(last, 12);
}

#[test]
fn index_fed_back_as_wait_index() {
    let (_, meta) = finish_read(response(200, Some("1234"), b"[]")).unwrap();
    let mut q = QueryOptions::default();
    q.wait_index = Some(meta.last_index);
    let r = build_read("/v1/catalog/nodes", &Config::default(), vec![], Some(&q));
    assert_eq!(r.query[0], pair("index", "1234"));
}

#[test]
fn write_meta_on_success() {
    let r = finish_write(response(200, None, b"true"));
    assert_eq!(r, Ok((b"true".to_vec(), WriteMeta { request_time_ms: 12 })));
}

#[test]
fn decimal_render_and_parse() {
    assert_eq!(render_decimal(0), "0");
    assert_eq!(render_decimal(8500), "8500");
    assert_eq!(render_decimal(u64::MAX), "18446744073709551615");
    assert_eq!(parse_decimal("0"), Some(0));
    assert_eq!(parse_decimal("8500"), Some(8500));
    assert_eq!(parse_decimal("18446744073709551615"), Some(u64::MAX));
    assert_eq!(parse_decimal("18446744073709551616"), None);
    assert_eq!(parse_decimal(""), None);
    assert_eq!(parse_decimal("+1"), Some(1));
    assert_eq!(parse_decimal("+"), None);
    assert_eq!(parse_decimal("+-1"), None);
    assert_eq!(parse_decimal("+18446744073709551615"), Some(u64::MAX));
    assert_eq!(parse_decimal(" 1"), None);
}
