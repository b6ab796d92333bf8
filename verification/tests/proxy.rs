use flash_proxy::configuration::{ConfigError, GatewayConfig};
use flash_proxy::headers::Header;
use flash_proxy::metrics::MetricsError;
use flash_proxy::proxy::{
    client_identity, conclude_token, scrape_response, DenialReason, FilterDecision, RequestCtx,
    RequestHead, SecureProxy, StartupError, UPSTREAM_SELECTION_LIMIT,
};
use jsonwebtoken::{decode, encode, Algorithm, DecodingKey, EncodingKey, Validation};
use std::collections::HashMap;
use std::time::{SystemTime, UNIX_EPOCH};

const MILLI: u64 = 1_000_000;

fn config(rate: u32, secret: &str) -> GatewayConfig {
    GatewayConfig {
        listen_port: 8443,
        upstream_ips: vec!["origin.example:443".to_string(), "10.0.0.2:443".to_string()],
        tls_cert_path: "cert.pem".to_string(),
        tls_key_path: "key.pem".to_string(),
        rate_limit_per_second: rate,
        jwt_secret: secret.to_string(),
    }
}

fn proxy(rate: u32, secret: &str) -> SecureProxy {
    match SecureProxy::bootstrap(&config(rate, secret)) {
        Ok(proxy) => proxy,
        Err(_) => panic!("the proxy could not be started"),
    }
}

fn unix_now() -> u64 {
    SystemTime::now().duration_since(UNIX_EPOCH).unwrap().as_secs()
}

fn token(secret: &str, exp: u64) -> String {
    let mut claims: HashMap<String, u64> = HashMap::new();
    claims.insert("exp".to_string(), exp);
    encode(
        &jsonwebtoken::Header::new(Algorithm::HS256),
        &claims,
        &EncodingKey::from_secret(secret.as_bytes()),
    )
    .unwrap()
}

fn valid_token(secret: &str) -> String {
    token(secret, unix_now() + 3600)
}

/// Verifies a token the way the server does, against the key of the
/// snapshot that the request holds.
fn verified(ctx: &RequestCtx, token: &str) -> bool {
    let snapshot = ctx.snapshot.as_ref().expect("a judged request holds a snapshot");
    let mut validation = Validation::new(Algorithm::HS256);
    validation.leeway = 0;
    decode::<HashMap<String, u64>>(token, &DecodingKey::from_secret(&snapshot.token_key), &validation)
        .is_ok()
}

fn head(method: &str, path: &[u8], agent: Option<&str>, auth: Option<String>, addr: &str) -> RequestHead {
    RequestHead {
        method: method.to_string(),
        raw_path: path.to_vec(),
        user_agent: agent.map(|a| a.as_bytes().to_vec()),
        authorization: auth.map(|a| a.into_bytes()),
        client_addr: Some(addr.to_string()),
    }
}

fn bearer(token: &str) -> Option<String> {
    Some(format!("Bearer {}", token))
}

/// Runs the filter to its end and gives the status the client would see:
/// the refusal, the local response, or 200 standing for the upstream's.
fn status_of(proxy: &mut SecureProxy, head: &RequestHead, now: u64) -> u16 {
    let mut ctx = proxy.new_ctx(now);
    let first = proxy.request_filter(&mut ctx, head, now);
    let decision = match first {
        FilterDecision::VerifyToken(token) => conclude_token(verified(&ctx, &token)),
        other => other,
    };
    match decision {
        FilterDecision::Respond(response) => response.status,
        FilterDecision::Deny(status, _) => status,
        FilterDecision::Forward => 200,
        FilterDecision::VerifyToken(_) => panic!("a token is verified once"),
    }
}

#[test]
fn bootstrap_builds_the_first_state() {
    let proxy = proxy(3, " K1\n");
    assert_eq!(proxy.upstream_sni, "origin.example");
    let snapshot = proxy.security.load();
    assert_eq!(snapshot.rate_limit_per_second, 3);
    assert_eq!(snapshot.token_key, b"K1".to_vec());
    assert_eq!(proxy.limiter.window("10.0.0.1"), Vec::<u64>::new());
    assert_eq!(proxy.metrics.encode().ok(), Some(String::new()));
}

#[test]
fn bootstrap_refuses_an_invalid_configuration() {
    match SecureProxy::bootstrap(&config(0, "K1")) {
        Err(StartupError::Config(ConfigError::Validation(text))) => {
            assert_eq!(text, "rate_limit_per_second must be greater than 0")
        }
        _ => panic!("an invalid configuration must be refused"),
    }
}

#[test]
fn new_context_is_empty() {
    let proxy = proxy(3, "K1");
    let ctx = proxy.new_ctx(77);
    assert_eq!(ctx.start, 77);
    assert_eq!(ctx.method, "");
    assert_eq!(ctx.path, "");
    assert_eq!(ctx.status_code, 0);
    assert!(ctx.snapshot.is_none());
}

#[test]
fn metrics_scrape_is_served_locally() {
    let mut proxy = proxy(1, "K1");
    proxy.metrics.record_request(200, "GET", "/ok", 1_000);
    let request = head("GET", b"/metrics", None, None, "10.0.0.1");
    let mut ctx = proxy.new_ctx(5);
    match proxy.request_filter(&mut ctx, &request, 5) {
        FilterDecision::Respond(response) => {
            assert_eq!(response.status, 200);
            assert_eq!(response.content_type, "text/plain");
            assert_eq!(response.content_length, response.body.len());
            assert!(response.body.starts_with("# HELP http_request"));
            assert!(response.body.contains("# HELP http_requests_total"));
        }
        _ => panic!("a scrape is answered locally"),
    }
    assert_eq!(ctx.method, "GET");
    assert_eq!(ctx.path, "/metrics");
    assert!(ctx.snapshot.is_none());
    // A scrape is not rate limited and leaves no trace in the store.
    assert_eq!(proxy.limiter.window("10.0.0.1"), Vec::<u64>::new());
    assert_eq!(status_of(&mut proxy, &request, 6), 200);
    assert_eq!(status_of(&mut proxy, &request, 7), 200);
}

#[test]
fn other_methods_on_metrics_are_judged() {
    let mut proxy = proxy(5, "K1");
    let request = head("POST", b"/metrics", Some("Mozilla/5.0"), None, "10.0.0.1");
    assert_eq!(status_of(&mut proxy, &request, 1), 401);
    let request = head("get", b"/metrics", Some("Mozilla/5.0"), None, "10.0.0.1");
    assert_eq!(status_of(&mut proxy, &request, 2), 401);
}

#[test]
fn blocked_user_agent_with_valid_token_is_forbidden_and_counted() {
    let mut proxy = proxy(5, "K1");
    let request = head("GET", b"/x", Some("curl/8.0"), bearer(&valid_token("K1")), "10.0.0.1");
    let mut ctx = proxy.new_ctx(1_000);
    match proxy.request_filter(&mut ctx, &request, 1_000) {
        FilterDecision::Deny(status, reason) => {
            assert_eq!(status, 403);
            assert_eq!(reason, DenialReason::BlockedUserAgent);
            assert_eq!(reason.tag(), "blocked user agent");
        }
        _ => panic!("a blocked user agent is refused"),
    }
    let record = proxy.logging(&mut ctx, Some("10.0.0.1"), Some(403), 3_001_000);
    assert_eq!(record.client_ip, "10.0.0.1");
    assert_eq!(record.method, "GET");
    assert_eq!(record.path, "/x");
    assert_eq!(record.latency_nanos, 3_000_000);
    assert_eq!(record.status_code, 403);
    assert_eq!(ctx.status_code, 403);
    let text = proxy.metrics.encode().ok().unwrap();
    assert!(text.contains("http_requests_total{method=\"GET\",path=\"/x\",status=\"403\"} 1\n"));
    assert!(text.contains(
        "http_request_duration_seconds_count{method=\"GET\",path=\"/x\",status=\"403\"} 1\n"
    ));
}

#[test]
fn traversal_with_valid_agent_and_token_is_forbidden() {
    let mut proxy = proxy(5, "K1");
    let request =
        head("GET", b"/../etc/passwd", Some("Mozilla/5.0"), bearer(&valid_token("K1")), "10.0.0.1");
    let mut ctx = proxy.new_ctx(1);
    match proxy.request_filter(&mut ctx, &request, 1) {
        FilterDecision::Deny(status, reason) => {
            assert_eq!(status, 403);
            assert_eq!(reason, DenialReason::BlockedPath);
            assert_eq!(reason.tag(), "blocked path");
        }
        _ => panic!("a traversal is refused"),
    }
}

#[test]
fn missing_authorization_is_unauthorized() {
    let mut proxy = proxy(5, "K1");
    let request = head("GET", b"/api", Some("Mozilla/5.0"), None, "10.0.0.1");
    let mut ctx = proxy.new_ctx(1);
    match proxy.request_filter(&mut ctx, &request, 1) {
        FilterDecision::Deny(status, reason) => {
            assert_eq!(status, 401);
            assert_eq!(reason, DenialReason::TokenRejected);
            assert_eq!(reason.tag(), "jwt auth failed");
        }
        _ => panic!("a request without a token is refused"),
    }
}

#[test]
fn valid_request_is_forwarded() {
    let mut proxy = proxy(5, "K1");
    let sent = valid_token("K1");
    let request = head("GET", b"/api", Some("Mozilla/5.0"), bearer(&sent), "10.0.0.1");
    let mut ctx = proxy.new_ctx(1);
    let handed = match proxy.request_filter(&mut ctx, &request, 1) {
        FilterDecision::VerifyToken(token) => token,
        _ => panic!("the token is handed back for verification"),
    };
    assert_eq!(handed, sent);
    assert!(verified(&ctx, &handed));
    assert!(matches!(conclude_token(true), FilterDecision::Forward));
    assert!(matches!(
        conclude_token(false),
        FilterDecision::Deny(401, DenialReason::TokenRejected)
    ));
}

#[test]
fn expired_or_forged_tokens_are_unauthorized() {
    let mut proxy = proxy(50, "K1");
    let expired = head("GET", b"/api", Some("Mozilla/5.0"), bearer(&token("K1", 1_000)), "a");
    assert_eq!(status_of(&mut proxy, &expired, 1), 401);
    let just_expired =
        head("GET", b"/api", Some("Mozilla/5.0"), bearer(&token("K1", unix_now() - 5)), "a");
    assert_eq!(status_of(&mut proxy, &just_expired, 1), 401);
    let forged = head("GET", b"/api", Some("Mozilla/5.0"), bearer(&valid_token("K2")), "a");
    assert_eq!(status_of(&mut proxy, &forged, 2), 401);
    let garbage = head("GET", b"/api", Some("Mozilla/5.0"), bearer("not.a.token"), "a");
    assert_eq!(status_of(&mut proxy, &garbage, 3), 401);
    let good = head("GET", b"/api", Some("Mozilla/5.0"), bearer(&valid_token("K1")), "a");
    assert_eq!(status_of(&mut proxy, &good, 4), 200);
}

#[test]
fn burst_over_the_ceiling_is_limited() {
    let mut proxy = proxy(3, "K1");
    let request =
        head("GET", b"/ok", Some("Mozilla/5.0"), bearer(&valid_token("K1")), "10.0.0.1");
    let mut statuses = Vec::new();
    for i in 0..6u64 {
        statuses.push(status_of(&mut proxy, &request, 1_000 * MILLI + i * 40 * MILLI));
    }
    assert_eq!(statuses, vec![200, 200, 200, 429, 429, 429]);
    // One second after the first accepted request the budget returns.
    assert_eq!(status_of(&mut proxy, &request, 2_000 * MILLI), 200);
}

#[test]
fn rate_limit_is_the_first_predicate() {
    let mut proxy = proxy(1, "K1");
    let bad = head("GET", b"/admin/..", None, None, "10.0.0.9");
    // Within the ceiling the path decides, and the refused request still
    // used up the client's budget.
    assert_eq!(status_of(&mut proxy, &bad, 10), 403);
    assert_eq!(status_of(&mut proxy, &bad, 20), 429);
    // Another client has its own budget.
    let other = head("GET", b"/admin/..", None, None, "10.0.0.10");
    assert_eq!(status_of(&mut proxy, &other, 30), 403);
}

#[test]
fn path_is_judged_before_agent_and_agent_before_token() {
    let mut proxy = proxy(50, "K1");
    let mut ctx = proxy.new_ctx(1);
    let request = head("GET", b"/.env", Some("curl/8.0"), None, "a");
    assert!(matches!(
        proxy.request_filter(&mut ctx, &request, 1),
        FilterDecision::Deny(403, DenialReason::BlockedPath)
    ));
    let request = head("GET", b"/fine", Some("curl/8.0"), None, "a");
    assert!(matches!(
        proxy.request_filter(&mut ctx, &request, 2),
        FilterDecision::Deny(403, DenialReason::BlockedUserAgent)
    ));
    let request = head("GET", b"/fine", None, None, "a");
    assert!(matches!(
        proxy.request_filter(&mut ctx, &request, 3),
        FilterDecision::Deny(403, DenialReason::BlockedUserAgent)
    ));
}

#[test]
fn client_without_address_is_unknown() {
    assert_eq!(client_identity(None), "unknown");
    assert_eq!(client_identity(Some("10.1.2.3:5555")), "10.1.2.3:5555");
    let mut proxy = proxy(1, "K1");
    let mut request = head("GET", b"/a", Some("Mozilla/5.0"), None, "x");
    request.client_addr = None;
    assert_eq!(status_of(&mut proxy, &request, 1), 401);
    assert_eq!(status_of(&mut proxy, &request, 2), 429);
    assert_eq!(proxy.limiter.window("unknown"), vec![1]);
}

#[test]
fn path_that_is_not_utf8_is_recorded_as_empty() {
    let mut proxy = proxy(5, "K1");
    let request = head("GET", &[b'/', 0xff], Some("Mozilla/5.0"), None, "a");
    let mut ctx = proxy.new_ctx(1);
    let _ = proxy.request_filter(&mut ctx, &request, 1);
    assert_eq!(ctx.path, "");
    assert_eq!(ctx.method, "GET");
}

#[test]
fn reload_changes_key_and_ceiling_for_later_requests_only() {
    let mut proxy = proxy(1, "K1");
    let t1 = valid_token("K1");
    let request = head("GET", b"/api", Some("Mozilla/5.0"), bearer(&t1), "10.0.0.1");

    // A request judged before the reload holds the old snapshot.
    let mut early = proxy.new_ctx(1);
    let handed = match proxy.request_filter(&mut early, &request, 1) {
        FilterDecision::VerifyToken(token) => token,
        _ => panic!("the token is handed back for verification"),
    };

    assert!(proxy.reload(Ok(config(2, "K2"))).is_ok());

    // It completes under the snapshot it was judged by.
    assert!(verified(&early, &handed));
    let mut response = vec![Header { name: "Server".to_string(), value: "origin".to_string() }];
    proxy.response_filter(&early, &mut response);
    assert_eq!(response.len(), 5);
    assert_eq!(early.snapshot.as_ref().unwrap().token_key, b"K1".to_vec());
    assert_eq!(early.snapshot.as_ref().unwrap().rate_limit_per_second, 1);

    // A request sent after the reload is judged by the new key and ceiling;
    // the store survived, so the request before the reload still counts.
    let other = head("GET", b"/api", Some("Mozilla/5.0"), bearer(&t1), "10.0.0.2");
    assert_eq!(status_of(&mut proxy, &other, 2), 401);
    let t2 = valid_token("K2");
    let renewed = head("GET", b"/api", Some("Mozilla/5.0"), bearer(&t2), "10.0.0.1");
    assert_eq!(status_of(&mut proxy, &renewed, 3), 200);
    assert_eq!(status_of(&mut proxy, &renewed, 4), 429);
    assert_eq!(proxy.limiter.window("10.0.0.1"), vec![1, 3]);
}

#[test]
fn failed_reload_keeps_the_snapshot() {
    let mut proxy = proxy(1, "K1");
    assert!(proxy.reload(Ok(config(4, ""))).is_err());
    assert!(proxy.reload(Err(ConfigError::Parse("bad yaml".to_string()))).is_err());
    assert_eq!(proxy.security.load().rate_limit_per_second, 1);
    assert_eq!(proxy.security.load().token_key, b"K1".to_vec());
}

#[test]
fn upstream_is_reached_over_tls_under_the_configured_name() {
    let proxy = proxy(1, "K1");
    match proxy.upstream_peer(Some("10.0.0.2:443".to_string())) {
        Ok(plan) => {
            assert_eq!(plan.address, "10.0.0.2:443");
            assert!(plan.tls);
            assert_eq!(plan.sni, "origin.example");
        }
        Err(_) => panic!("a selected upstream is used"),
    }
    assert_eq!(UPSTREAM_SELECTION_LIMIT, 256);
}

#[test]
fn no_healthy_upstream_is_an_internal_error() {
    let proxy = proxy(1, "K1");
    assert_eq!(proxy.upstream_peer(None).err(), Some(500));
}

#[test]
fn host_header_is_rewritten() {
    let proxy = proxy(1, "K1");
    let mut request = vec![
        Header { name: "host".to_string(), value: "proxy.example".to_string() },
        Header { name: "Accept".to_string(), value: "*/*".to_string() },
    ];
    proxy.upstream_request_filter(&mut request);
    let got: Vec<(String, String)> = request.into_iter().map(|h| (h.name, h.value)).collect();
    assert_eq!(
        got,
        vec![
            ("Accept".to_string(), "*/*".to_string()),
            ("Host".to_string(), "origin.example".to_string()),
        ]
    );
}

#[test]
fn response_gets_the_security_headers() {
    let proxy = proxy(1, "K1");
    let ctx = proxy.new_ctx(1);
    let mut response = vec![
        Header { name: "content-security-policy".to_string(), value: "none".to_string() },
        Header { name: "Content-Length".to_string(), value: "2".to_string() },
    ];
    proxy.response_filter(&ctx, &mut response);
    let got: Vec<(String, String)> = response.into_iter().map(|h| (h.name, h.value)).collect();
    let expected: Vec<(String, String)> = vec![
        ("Content-Length", "2"),
        ("Strict-Transport-Security", "max-age=31536000; includeSubDomains; preload"),
        ("X-Frame-Options", "DENY"),
        ("X-Content-Type-Options", "nosniff"),
        ("Content-Security-Policy", "default-src 'self'"),
    ]
    .into_iter()
    .map(|(n, v)| (n.to_string(), v.to_string()))
    .collect();
    assert_eq!(got, expected);
}

#[test]
fn request_without_response_is_logged_with_status_zero() {
    let mut proxy = proxy(1, "K1");
    let mut ctx = proxy.new_ctx(500);
    ctx.method = "GET".to_string();
    ctx.path = "/gone".to_string();
    let record = proxy.logging(&mut ctx, None, None, 400);
    assert_eq!(record.status_code, 0);
    assert_eq!(record.latency_nanos, 0);
    assert_eq!(record.client_ip, "unknown");
    let text = proxy.metrics.encode().ok().unwrap();
    assert!(text.contains("http_requests_total{method=\"GET\",path=\"/gone\",status=\"0\"} 1\n"));
}

#[test]
fn scrape_response_follows_the_encoder() {
    let ok = scrape_response(Ok("# HELP x\n\u{e9}".to_string()));
    assert_eq!(ok.status, 200);
    assert_eq!(ok.content_type, "text/plain");
    assert_eq!(ok.body, "# HELP x\n\u{e9}");
    assert_eq!(ok.content_length, 11);
    let failed = scrape_response(Err(MetricsError::NotText));
    assert_eq!(failed.status, 500);
    assert_eq!(failed.body, "");
    assert_eq!(failed.content_length, 0);
}

#[test]
fn a_logged_request_is_recorded_once_with_its_latency() {
    let mut proxy = proxy(1, "K1");
    proxy.metrics.record_request(200, "GET", "/other", 1_000);
    let before = proxy.metrics.encode().ok().unwrap();
    let mut ctx = proxy.new_ctx(1_000);
    ctx.method = "GET".to_string();
    ctx.path = "/x".to_string();
    let record = proxy.logging(&mut ctx, Some("10.0.0.1"), Some(403), 1_000 + 30 * MILLI);
    assert_eq!(record.latency_nanos, 30 * MILLI);
    assert_eq!(record.status_code, 403);
    assert_eq!(ctx.status_code, 403);
    let after = proxy.metrics.encode().ok().unwrap();
    assert!(after.contains("http_requests_total{method=\"GET\",path=\"/x\",status=\"403\"} 1\n"));
    assert!(after.contains(
        "http_request_duration_seconds_count{method=\"GET\",path=\"/x\",status=\"403\"} 1\n"
    ));
    assert!(after.contains(
        "http_request_duration_seconds_sum{method=\"GET\",path=\"/x\",status=\"403\"} 0.03\n"
    ));
    for line in before.lines() {
        assert!(after.lines().any(|kept| kept == line), "changed line: {}", line);
    }
}

#[test]
fn a_valid_configuration_always_starts_the_proxy() {
    for rate in [1u32, 3, 1_000] {
        assert!(SecureProxy::bootstrap(&config(rate, "K1")).is_ok());
    }
}
