use consul_oxide::{
    datacenters_from_response, finish_write, Catalog, Client, Config, ConsulError,
    DecodeFailure, HttpMethod, HttpResponse, QueryOptions, ServiceWeights, WriteMeta,
};

fn response(status: u16, index: Option<&str>, body: &[u8]) -> HttpResponse {
    HttpResponse {
        status,
        index: index.map(|s| s.to_string()),
        known_leader: Some("true".to_string()),
        content_hash: None,
        elapsed_ms: 4,
        body: body.to_vec(),
    }
}

#[test]
fn register_writes_to_catalog_register() {
    let client = Client::new(Config::default());
    let payload = serde_json::to_vec(&serde_json::Value::Object({
        let mut m = serde_json::Map::new();
        m.insert("Node".to_string(), serde_json::Value::String("n1".to_string()));
        m.insert("Address".to_string(), serde_json::Value::String("10.0.0.1".to_string()));
        m
    }))
    .unwrap();
    let r = client.register(payload.clone(), None);
    assert_eq!(r.method, HttpMethod::Put);
    assert_eq!(r.url, "http://127.0.0.1:8500/v1/catalog/register");
    assert!(r.query.is_empty());
    assert_eq!(r.token, None);
    assert_eq!(r.body, Some(payload));
    let ok = finish_write(response(200, None, b"true")).map(|(_, m)| ((), m));
    assert_eq!(ok, Ok(((), WriteMeta { request_time_ms: 4 })));
    let bad = finish_write(response(400, None, b"Invalid payload"));
    assert_eq!(bad, Err(ConsulError::RequestFailed(400)));
}

#[test]
fn catalog_paths() {
    let client = Client::new(Config::new_from_consul_host("http://agent", Some(9500), None));
    assert_eq!(client.deregister(vec![], None).url, "http://agent:9500/v1/catalog/deregister");
    assert_eq!(client.list_datacenters().url, "http://agent:9500/v1/catalog/datacenters");
    assert_eq!(client.list_datacenter_nodes(None).url, "http://agent:9500/v1/catalog/nodes");
    let q = QueryOptions::default();
    let r = client.list_datacenter_services(Some(&q));
    assert_eq!(r.url, "http://agent:9500/v1/catalog/services");
    assert_eq!(r.method, HttpMethod::Get);
}

#[test]
fn list_datacenters_keeps_server_order() {
    let client = Client::new(Config::default());
    let r = client.list_datacenters();
    assert_eq!(r.method, HttpMethod::Get);
    assert!(r.query.is_empty());
    let (names, meta) =
        datacenters_from_response(response(200, Some("17"), b"[\"dc1\",\"dc2\"]")).unwrap();
    assert_eq!(names, vec!["dc1".to_string(), "dc2".to_string()]);
    assert_eq!(meta.last_index, 17);
    assert!(meta.known_leader);
    let (names, _) =
        datacenters_from_response(response(200, Some("17"), b"[\"dc2\",\"dc1\"]")).unwrap();
    assert_eq!(names, vec!["dc2".to_string(), "dc1".to_string()]);
}

#[test]
fn list_datacenters_empty_body_is_empty_list() {
    let (names, meta) = datacenters_from_response(response(200, Some("3"), b"")).unwrap();
    assert!(names.is_empty());
    assert_eq!(meta.last_index, 3);
}

#[test]
fn list_datacenters_errors() {
    let r = datacenters_from_response(response(200, Some("3"), b"{\"a\": 1}"));
    assert_eq!(r, Err(ConsulError::DecodeError(DecodeFailure::InvalidBody)));
    let r = datacenters_from_response(response(500, Some("3"), b"[\"dc1\"]"));
    assert_eq!(r, Err(ConsulError::RequestFailed(500)));
    let r = datacenters_from_response(response(200, None, b"[\"dc1\"]"));
    assert_eq!(r, Err(ConsulError::DecodeError(DecodeFailure::MissingIndex)));
}

#[test]
fn config_from_environment_values() {
    let c = Config::new_from_env(Some("10.0.0.1:8500".to_string()), None);
    assert_eq!(c.address, "http://10.0.0.1:8500");
    assert_eq!(c.token, None);
    let c = Config::new_from_env(Some("https://consul:8501".to_string()), Some("t".to_string()));
    assert_eq!(c.address, "https://consul:8501");
    assert_eq!(c.token, Some("t".to_string()));
    let c = Config::new_from_env(None, None);
    assert_eq!(c.address, "http://127.0.0.1:8500");
    assert_eq!(c.datacenter, None);
}

#[test]
fn config_from_host() {
    let c = Config::new_from_consul_host("http://10.1.1.1", None, Some("tok".to_string()));
    assert_eq!(c.address, "http://10.1.1.1:8500");
    assert_eq!(c.token, Some("tok".to_string()));
    assert_eq!(Config::default().address, "http://127.0.0.1:8500");
}

#[test]
fn service_weights_default_is_zero() {
    assert_eq!(ServiceWeights::default(), ServiceWeights { passing: 0, warning: 0 });
}
