use chroma_rs::client::{ChromaClient, ChromaClientParams, Settings, Step, Operation, Exchange};
use chroma_rs::collection::Collection;
use chroma_rs::error::ChromaClientError;
use chroma_rs::http::{HttpRequest, Method, Reply};

fn ok(status: u16, body: &str) -> Reply {
    Reply::Received { status, body: Ok(body.to_string()) }
}

fn client() -> ChromaClient {
    match ChromaClient::new(ChromaClientParams::default()) {
        Ok(c) => c,
        Err(_) => panic!("default parameters are valid"),
    }
}

/// Runs an operation against canned replies, one per request it sends.
fn run<T>(
    mut step: impl FnMut(&Vec<Reply>) -> Step<T>,
    canned: Vec<Reply>,
) -> (Vec<HttpRequest>, Result<T, ChromaClientError>) {
    let mut replies: Vec<Reply> = Vec::new();
    let mut sent: Vec<HttpRequest> = Vec::new();
    let mut canned = canned.into_iter();
    loop {
        match step(&replies) {
            Step::Send(req) => {
                sent.push(req);
                replies.push(canned.next().expect("a reply for every request"));
            }
            Step::Done(r) => return (sent, r),
        }
    }
}

fn header<'a>(req: &'a HttpRequest, name: &str) -> Option<&'a str> {
    req.headers.iter().find(|(n, _)| n == name).map(|(_, v)| v.as_str())
}

const BASE: &str = "http://localhost:8000/api/v1";
const SCOPE: &str = "tenant=default_tenant&database=default_database";

#[test]
fn heartbeat() {
    let c = client();
    let (sent, r) = run(
        |rs| c.heartbeat(rs),
        vec![ok(200, ""), ok(200, "{\"nanosecond heartbeat\": 1700000000123456789}")],
    );
    let default: u64 = 0;
    let hb = r.unwrap_or(default);
    assert_ne!(hb, default);
    assert_eq!(hb, 1700000000123456789);
    assert_eq!(sent.len(), 2);
    assert_eq!(sent[0].url, format!("{}/pre-flight-checks", BASE));
    assert_eq!(sent[0].method, Method::Get);
    assert_eq!(sent[1].url, format!("{}/heartbeat", BASE));
    assert_eq!(header(&sent[1], "accept"), Some("application/json"));
    assert!(sent[1].body.is_none());
}

fn collection_body(name: &str, id: &str) -> String {
    format!(
        "{{\"name\":\"{}\",\"id\":\"{}\",\"metadata\":null,\"tenant\":\"default_tenant\",\"database\":\"default_database\"}}",
        name, id
    )
}

#[test]
fn create_and_delete() {
    let c = client();
    let (sent, r) = run(
        |rs| c.create_collection("john-doe-collection", &None, rs),
        vec![ok(200, ""), ok(200, &collection_body("john-doe-collection", "8d3f"))],
    );
    let new_collection = r.unwrap_or(Collection {
        name: "default-collection".into(),
        id: "null".into(),
        metadata: None,
    });
    assert_eq!(new_collection.name, "john-doe-collection");
    assert_eq!(sent[1].method, Method::Post);
    assert_eq!(sent[1].url, format!("{}/collections?{}", BASE, SCOPE));
    assert_eq!(
        sent[1].body.as_deref(),
        Some("{\"name\":\"john-doe-collection\",\"metadata\":null,\"get_or_create\":false}")
    );
    assert_eq!(header(&sent[1], "content-type"), Some("application/json"));

    let (sent, r) = run(|rs| c.delete_collection(&new_collection.name, rs), vec![ok(200, ""), ok(200, "")]);
    assert!(r.is_ok());
    assert_eq!(sent[1].method, Method::Delete);
    assert_eq!(sent[1].url, format!("{}/collections/john-doe-collection?{}", BASE, SCOPE));
}

#[test]
fn get_or_create_and_delete() {
    let c = client();
    let (sent, r) = run(
        |rs| c.get_or_create_collection("john-doe-g-or-c-collection", &None, rs),
        vec![ok(200, ""), ok(200, &collection_body("john-doe-g-or-c-collection", "77"))],
    );
    let new_collection = r.unwrap_or(Collection {
        name: "default-collection".into(),
        id: "null".into(),
        metadata: None,
    });
    assert_eq!(new_collection.name, "john-doe-g-or-c-collection");
    assert_eq!(
        sent[1].body.as_deref(),
        Some("{\"name\":\"john-doe-g-or-c-collection\",\"metadata\":null,\"get_or_create\":true}")
    );
    let (_, r) = run(|rs| c.delete_collection(&new_collection.name, rs), vec![ok(200, ""), ok(200, "")]);
    assert!(r.is_ok());
}

#[test]
fn scoped_url_round_trips() {
    let params = ChromaClientParams {
        host: "db.example".to_string(),
        port: "9000".to_string(),
        ssl: true,
        headers: None,
        settings: Some(Settings { tenant: "acme & co".to_string(), database: "db=1?".to_string() }),
    };
    let c = ChromaClient::new(params).ok().unwrap();
    let segments = vec!["api".to_string(), "v1".to_string(), "collections".to_string(), "a b/c".to_string()];
    let u = c.get_url_with_params(&segments).ok().unwrap();
    let parsed = url::Url::parse(&u).unwrap();
    let pairs: Vec<(String, String)> = parsed.query_pairs().map(|(k, v)| (k.into_owned(), v.into_owned())).collect();
    assert_eq!(
        pairs,
        vec![("tenant".to_string(), "acme & co".to_string()), ("database".to_string(), "db=1?".to_string())]
    );
    let got: Vec<String> = parsed
        .path_segments()
        .unwrap()
        .map(|s| percent_decode(s))
        .collect();
    assert_eq!(got, segments);
    assert_eq!(parsed.scheme(), "https");
    assert_eq!(parsed.host_str(), Some("db.example"));
    assert_eq!(parsed.port(), Some(9000));
}

fn percent_decode(s: &str) -> String {
    let b = s.as_bytes();
    let mut out = Vec::new();
    let mut i = 0;
    while i < b.len() {
        if b[i] == b'%' && i + 3 <= b.len() {
            out.push(u8::from_str_radix(&s[i + 1..i + 3], 16).unwrap());
            i += 3;
        } else {
            out.push(b[i]);
            i += 1;
        }
    }
    String::from_utf8(out).unwrap()
}

#[test]
fn unscoped_url_has_no_query() {
    let c = client();
    let segments = vec!["api".to_string(), "v1".to_string(), "version".to_string()];
    assert_eq!(c.get_url(&segments).ok().unwrap(), format!("{}/version", BASE));
}

#[test]
fn collection_name_is_encoded_in_path() {
    let c = client();
    let (sent, _) = run(|rs| c.get_collection("my coll/x", rs), vec![ok(200, ""), ok(404, "")]);
    assert_eq!(sent[1].url, format!("{}/collections/my%20coll%2Fx?{}", BASE, SCOPE));
}

#[test]
fn malformed_origin_is_url_error() {
    let params = ChromaClientParams { host: "bad host".to_string(), ..ChromaClientParams::default() };
    let c = ChromaClient::new(params).ok().unwrap();
    let (sent, r) = run(|rs| c.heartbeat(rs), vec![]);
    assert!(sent.is_empty());
    assert!(matches!(r, Err(ChromaClientError::UrlParseError(_))));
}

#[test]
fn failure_status_surfaces_for_every_operation() {
    let c = client();
    let canned = || vec![ok(200, ""), ok(404, "{\"error\":\"not found\"}")];
    let is_404 = |e: &ChromaClientError| matches!(e, ChromaClientError::ResponseStatusError(404, _));
    assert!(is_404(&run(|rs| c.heartbeat(rs), canned()).1.unwrap_err()));
    assert!(is_404(&run(|rs| c.create_collection("a", &None, rs), canned()).1.unwrap_err()));
    assert!(is_404(&run(|rs| c.get_or_create_collection("a", &None, rs), canned()).1.unwrap_err()));
    assert!(is_404(&run(|rs| c.get_collection("a", rs), canned()).1.unwrap_err()));
    assert!(is_404(&run(|rs| c.list_collections(rs), canned()).1.unwrap_err()));
    assert!(is_404(&run(|rs| c.delete_collection("a", rs), canned()).1.unwrap_err()));
    assert!(is_404(&run(|rs| c.reset(rs), canned()).1.unwrap_err()));
    assert!(is_404(&run(|rs| c.version(rs), canned()).1.unwrap_err()));
}

#[test]
fn second_create_conflicts() {
    let c = client();
    let (_, first) = run(|rs| c.create_collection("dup", &None, rs), vec![ok(200, ""), ok(200, &collection_body("dup", "1"))]);
    assert_eq!(first.unwrap().id, "1");
    let (_, second) = run(|rs| c.create_collection("dup", &None, rs), vec![ok(200, ""), ok(409, "{\"error\":\"exists\"}")]);
    assert!(matches!(second, Err(ChromaClientError::ResponseStatusError(409, _))));
}

#[test]
fn get_or_create_twice_gives_same_id() {
    let c = client();
    let (sent1, r1) = run(|rs| c.get_or_create_collection("same", &None, rs), vec![ok(200, ""), ok(200, &collection_body("same", "abc"))]);
    let (sent2, r2) = run(|rs| c.get_or_create_collection("same", &None, rs), vec![ok(200, ""), ok(200, &collection_body("same", "abc"))]);
    assert_eq!(sent1[1].url, sent2[1].url);
    assert_eq!(sent1[1].body, sent2[1].body);
    assert_eq!(r1.unwrap().id, r2.unwrap().id);
}

#[test]
fn missing_id_is_parse_error() {
    let c = client();
    let (_, r) = run(
        |rs| c.create_collection("x", &None, rs),
        vec![ok(200, ""), ok(200, "{\"name\":\"x\",\"metadata\":null,\"tenant\":\"t\",\"database\":\"d\"}")],
    );
    assert!(matches!(r, Err(ChromaClientError::ResponseParseError(_))));
}

#[test]
fn invalid_json_is_parse_error() {
    let c = client();
    let (_, r) = run(|rs| c.heartbeat(rs), vec![ok(200, ""), ok(200, "not json")]);
    assert!(matches!(r, Err(ChromaClientError::ResponseParseError(_))));
    let (_, r) = run(|rs| c.heartbeat(rs), vec![ok(200, ""), ok(200, "{\"nanosecond heartbeat\": -4}")]);
    assert!(matches!(r, Err(ChromaClientError::ResponseParseError(_))));
    let (_, r) = run(|rs| c.list_collections(rs), vec![ok(200, ""), ok(200, "{}")]);
    assert!(matches!(r, Err(ChromaClientError::ResponseParseError(_))));
}

#[test]
fn end_to_end_scenario() {
    let c = ChromaClient::new(ChromaClientParams {
        host: "localhost".to_string(),
        port: "8000".to_string(),
        ssl: false,
        headers: None,
        settings: None,
    })
    .ok()
    .unwrap();
    let (_, hb) = run(|rs| c.heartbeat(rs), vec![ok(200, ""), ok(200, "{\"nanosecond heartbeat\": 42}")]);
    assert!(hb.unwrap() > 0);
    let (_, col) = run(
        |rs| c.create_collection("test-collection", &None, rs),
        vec![ok(200, ""), ok(200, &collection_body("test-collection", "0f1e"))],
    );
    let col = col.unwrap();
    assert_eq!(col.name, "test-collection");
    assert!(!col.id.is_empty());
    assert!(col.metadata.is_none());
    let (_, del) = run(|rs| c.delete_collection("test-collection", rs), vec![ok(200, ""), ok(200, "")]);
    assert!(del.is_ok());
    let (_, got) = run(|rs| c.get_collection("test-collection", rs), vec![ok(200, ""), ok(404, "")]);
    assert!(matches!(got, Err(ChromaClientError::ResponseStatusError(404, _))));
}

#[test]
fn preflight_failure_stops_operation() {
    let c = client();
    let (sent, r) = run(|rs| c.list_collections(rs), vec![ok(503, "")]);
    assert_eq!(sent.len(), 1);
    match r {
        Err(ChromaClientError::PreflightError(m)) => assert_eq!(m, "Preflight request failed, status: 503"),
        _ => panic!("expected a preflight error"),
    }
}

#[test]
fn transport_failures_are_reported() {
    let c = client();
    let (_, r) = run(|rs| c.version(rs), vec![Reply::Failed("connection refused".to_string())]);
    assert!(matches!(r, Err(ChromaClientError::PreflightError(m)) if m == "connection refused"));
    let (_, r) = run(|rs| c.version(rs), vec![ok(200, ""), Reply::Failed("timed out".to_string())]);
    assert!(matches!(r, Err(ChromaClientError::RequestError(m)) if m == "timed out"));
    let (_, r) = run(
        |rs| c.version(rs),
        vec![ok(200, ""), Reply::Received { status: 200, body: Err("truncated".to_string()) }],
    );
    assert!(matches!(r, Err(ChromaClientError::ResponseError(m)) if m == "truncated"));
}

#[test]
fn version_and_reset() {
    let c = client();
    let (sent, r) = run(|rs| c.version(rs), vec![ok(200, ""), ok(200, "\"0.4.14\"")]);
    assert_eq!(r.ok().unwrap(), "\"0.4.14\"");
    assert_eq!(sent[1].url, format!("{}/version", BASE));
    let (sent, r) = run(|rs| c.reset(rs), vec![ok(200, ""), ok(200, "true")]);
    assert!(r.is_ok());
    assert_eq!(sent[1].method, Method::Post);
    assert_eq!(sent[1].url, format!("{}/reset", BASE));
    assert!(header(&sent[1], "content-type").is_none());
}

#[test]
fn list_collections_decodes_each() {
    let c = client();
    let body = "[{\"name\":\"a\",\"id\":\"1\",\"metadata\":{\"k\":\"v\",\"b\":\"w\"}},{\"name\":\"b\",\"id\":\"2\",\"metadata\":null}]";
    let (_, r) = run(|rs| c.list_collections(rs), vec![ok(200, ""), ok(200, body)]);
    let cs = r.ok().unwrap();
    assert_eq!(cs.len(), 2);
    assert_eq!(cs[0].name, "a");
    assert_eq!(cs[0].id, "1");
    assert_eq!(
        cs[0].metadata,
        Some(vec![("b".to_string(), "w".to_string()), ("k".to_string(), "v".to_string())])
    );
    assert_eq!(cs[1].id, "2");
    assert!(cs[1].metadata.is_none());
    let (_, r) = run(|rs| c.list_collections(rs), vec![ok(200, ""), ok(200, "[{\"name\":\"a\"}]")]);
    assert!(matches!(r, Err(ChromaClientError::ResponseParseError(_))));
}

#[test]
fn non_string_metadata_is_parse_error() {
    let c = client();
    let (_, r) = run(
        |rs| c.get_collection("a", rs),
        vec![ok(200, ""), ok(200, "{\"name\":\"a\",\"id\":\"1\",\"metadata\":{\"n\":3}}")],
    );
    assert!(matches!(r, Err(ChromaClientError::ResponseParseError(_))));
}

#[test]
fn request_body_escapes_and_keeps_metadata_order() {
    let c = client();
    let m = Some(vec![("z".to_string(), "1".to_string()), ("a\"q".to_string(), "line\nbreak".to_string())]);
    let (sent, _) = run(|rs| c.get_or_create_collection("n\\m", &m, rs), vec![ok(200, ""), ok(500, "")]);
    assert_eq!(
        sent[1].body.as_deref(),
        Some("{\"name\":\"n\\\\m\",\"metadata\":{\"z\":\"1\",\"a\\\"q\":\"line\\nbreak\"},\"get_or_create\":true}")
    );
}

#[test]
fn custom_headers_are_kept_and_accept_replaced() {
    let params = ChromaClientParams {
        headers: Some(vec![("X-Token".to_string(), "k-123".to_string()), ("Accept".to_string(), "text/plain".to_string())]),
        ..ChromaClientParams::default()
    };
    let c = ChromaClient::new(params).ok().unwrap();
    let (sent, _) = run(|rs| c.heartbeat(rs), vec![ok(503, "")]);
    assert_eq!(
        sent[0].headers,
        vec![("X-Token".to_string(), "k-123".to_string()), ("accept".to_string(), "application/json".to_string())]
    );
}

#[test]
fn illegal_header_value_is_configuration_error() {
    let params = ChromaClientParams {
        headers: Some(vec![("X-Bad".to_string(), "a\nb".to_string())]),
        ..ChromaClientParams::default()
    };
    assert!(matches!(ChromaClient::new(params), Err(ChromaClientError::ConfigurationError(_))));
    let params = ChromaClientParams {
        headers: Some(vec![("X-Ok".to_string(), "tab\tand é".to_string())]),
        ..ChromaClientParams::default()
    };
    assert!(ChromaClient::new(params).is_ok());
}

#[test]
fn defaults() {
    let s = Settings::default();
    assert_eq!(s.tenant, "default_tenant");
    assert_eq!(s.database, "default_database");
    let p = ChromaClientParams::default();
    assert_eq!(p.host, "localhost");
    assert_eq!(p.port, "8000");
    assert!(!p.ssl);
}

#[test]
fn advance_reports_success_body() {
    let c = client();
    let replies = vec![ok(200, ""), ok(201, "x")];
    match c.advance(&Operation::Version, &replies) {
        Exchange::Replied(Ok(b)) => assert_eq!(b, "x"),
        _ => panic!("expected the body"),
    }
}

#[test]
fn names_that_break_the_path_are_refused() {
    let c = client();
    for name in ["", ".", ".."] {
        let (sent, r) = run(|rs| c.get_collection(name, rs), vec![]);
        assert!(sent.is_empty());
        assert!(matches!(r, Err(ChromaClientError::UrlParseError(_))));
        let (sent, r) = run(|rs| c.delete_collection(name, rs), vec![]);
        assert!(sent.is_empty());
        assert!(matches!(r, Err(ChromaClientError::UrlParseError(_))));
    }
    let (sent, _) = run(|rs| c.get_collection("...", rs), vec![ok(200, ""), ok(404, "")]);
    assert_eq!(sent[1].url, format!("{}/collections/...?{}", BASE, SCOPE));
}

#[test]
fn status_errors_name_operation_and_status() {
    let c = client();
    let (_, r) = run(|rs| c.delete_collection("a", rs), vec![ok(200, ""), ok(404, "")]);
    match r {
        Err(ChromaClientError::ResponseStatusError(404, m)) => {
            assert_eq!(m, "Failed to delete collection with status code: 404")
        }
        _ => panic!("expected a status error"),
    }
    let (_, r) = run(|rs| c.reset(rs), vec![ok(200, ""), ok(500, "")]);
    match r {
        Err(ChromaClientError::ResponseStatusError(500, m)) => {
            assert_eq!(m, "Failed to reset with status code: 500 - make sure `ALLOW_RESET=TRUE`")
        }
        _ => panic!("expected a status error"),
    }
    let (_, r) = run(|rs| c.list_collections(rs), vec![ok(200, ""), ok(403, "")]);
    match r {
        Err(ChromaClientError::ResponseStatusError(403, m)) => {
            assert_eq!(m, "Failed to list collections with status code: 403")
        }
        _ => panic!("expected a status error"),
    }
}

#[test]
fn creation_reply_must_name_tenant_and_database() {
    let c = client();
    let (_, r) = run(
        |rs| c.create_collection("x", &None, rs),
        vec![ok(200, ""), ok(200, "{\"name\":\"x\",\"id\":\"1\",\"database\":\"d\"}")],
    );
    assert!(matches!(r, Err(ChromaClientError::ResponseParseError(_))));
    let (_, r) = run(
        |rs| c.get_collection("x", rs),
        vec![ok(200, ""), ok(200, "{\"name\":\"x\",\"id\":\"1\"}")],
    );
    assert_eq!(r.unwrap().id, "1");
}

#[test]
fn illegal_header_name_is_configuration_error() {
    let params = ChromaClientParams {
        headers: Some(vec![("bad name".to_string(), "v".to_string())]),
        ..ChromaClientParams::default()
    };
    assert!(matches!(ChromaClient::new(params), Err(ChromaClientError::ConfigurationError(_))));
    let params = ChromaClientParams {
        headers: Some(vec![("".to_string(), "v".to_string())]),
        ..ChromaClientParams::default()
    };
    assert!(matches!(ChromaClient::new(params), Err(ChromaClientError::ConfigurationError(_))));
}

#[test]
fn url_errors_repeat() {
    let params = ChromaClientParams { host: "bad host".to_string(), ..ChromaClientParams::default() };
    let c = ChromaClient::new(params).ok().unwrap();
    let segments = vec!["api".to_string()];
    let e1 = c.get_url_with_params(&segments).err().unwrap();
    let e2 = c.get_url_with_params(&segments).err().unwrap();
    match (e1, e2) {
        (ChromaClientError::UrlParseError(a), ChromaClientError::UrlParseError(b)) => {
            assert!(!a.is_empty());
            assert_eq!(a, b)
        }
        _ => panic!("expected URL errors"),
    }
}
