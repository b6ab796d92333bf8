use flash_proxy::metrics::{exposition_text, Metrics, MetricsError};

fn fresh() -> Metrics {
    match Metrics::new() {
        Ok(metrics) => metrics,
        Err(_) => panic!("the registry could not be built"),
    }
}

fn encoded(metrics: &Metrics) -> String {
    match metrics.encode() {
        Ok(text) => text,
        Err(_) => panic!("the metrics could not be encoded"),
    }
}

#[test]
fn fresh_registry_encodes_to_nothing() {
    assert_eq!(encoded(&fresh()), "");
}

#[test]
fn one_request_is_counted_and_observed_once() {
    let mut metrics = fresh();
    metrics.record_request(403, "GET", "/x", 2_000_000);
    let text = encoded(&metrics);
    assert!(text.contains("# HELP http_requests_total Total number of HTTP requests"));
    assert!(text.contains("# TYPE http_requests_total counter"));
    assert!(text.contains("http_requests_total{method=\"GET\",path=\"/x\",status=\"403\"} 1\n"));
    assert!(text.contains("# HELP http_request_duration_seconds HTTP request duration in seconds"));
    assert!(text.contains("# TYPE http_request_duration_seconds histogram"));
    assert!(text.contains(
        "http_request_duration_seconds_count{method=\"GET\",path=\"/x\",status=\"403\"} 1\n"
    ));
    assert!(text.contains(
        "http_request_duration_seconds_sum{method=\"GET\",path=\"/x\",status=\"403\"} 0.002\n"
    ));
}

#[test]
fn buckets_are_the_eight_fixed_bounds() {
    let mut metrics = fresh();
    metrics.record_request(200, "GET", "/", 30_000_000);
    let text = encoded(&metrics);
    let bounds = ["0.005", "0.01", "0.025", "0.05", "0.1", "0.25", "0.5", "1"];
    let counts = [0, 0, 0, 1, 1, 1, 1, 1];
    for (bound, count) in bounds.iter().zip(counts.iter()) {
        let line = format!(
            "http_request_duration_seconds_bucket{{method=\"GET\",path=\"/\",status=\"200\",le=\"{}\"}} {}\n",
            bound, count
        );
        assert!(text.contains(&line), "missing line: {}", line);
    }
    assert!(text.contains(
        "http_request_duration_seconds_bucket{method=\"GET\",path=\"/\",status=\"200\",le=\"+Inf\"} 1\n"
    ));
    assert!(!text.contains("le=\"2.5\""));
}

#[test]
fn a_duration_on_a_bound_falls_into_its_bucket() {
    let mut metrics = fresh();
    metrics.record_request(200, "GET", "/", 5_000_000);
    let text = encoded(&metrics);
    assert!(text.contains(
        "http_request_duration_seconds_bucket{method=\"GET\",path=\"/\",status=\"200\",le=\"0.005\"} 1\n"
    ));
}

#[test]
fn repeated_requests_add_up_per_label_set() {
    let mut metrics = fresh();
    metrics.record_request(200, "GET", "/a", 1);
    metrics.record_request(200, "GET", "/a", 1);
    metrics.record_request(200, "POST", "/a", 1);
    metrics.record_request(0, "GET", "/a", 1);
    let text = encoded(&metrics);
    assert!(text.contains("http_requests_total{method=\"GET\",path=\"/a\",status=\"200\"} 2\n"));
    assert!(text.contains("http_requests_total{method=\"POST\",path=\"/a\",status=\"200\"} 1\n"));
    assert!(text.contains("http_requests_total{method=\"GET\",path=\"/a\",status=\"0\"} 1\n"));
    assert!(text.contains(
        "http_request_duration_seconds_count{method=\"GET\",path=\"/a\",status=\"200\"} 2\n"
    ));
}

#[test]
fn scrape_begins_with_a_help_line() {
    let mut metrics = fresh();
    metrics.record_request(200, "GET", "/", 1);
    assert!(encoded(&metrics).starts_with("# HELP http_request"));
}

#[test]
fn encoded_bytes_are_read_as_text() {
    match exposition_text(Ok("# HELP x\n\u{e9} 1\n".as_bytes().to_vec())) {
        Ok(text) => assert_eq!(text, "# HELP x\n\u{e9} 1\n"),
        Err(_) => panic!("text must be handed on"),
    }
    match exposition_text(Ok(Vec::new())) {
        Ok(text) => assert_eq!(text, ""),
        Err(_) => panic!("no bytes are the empty text"),
    }
}

#[test]
fn bytes_that_are_not_utf8_are_a_text_error() {
    assert!(matches!(exposition_text(Ok(vec![0x23, 0xff])), Err(MetricsError::NotText)));
    assert!(matches!(exposition_text(Ok(vec![0xc3])), Err(MetricsError::NotText)));
}

#[test]
fn failure_of_the_encoder_keeps_its_message() {
    match exposition_text(Err("MetricFamily has no name".to_string())) {
        Err(MetricsError::Encode(message)) => assert_eq!(message, "MetricFamily has no name"),
        _ => panic!("the failure of the encoder must be handed on"),
    }
}

#[test]
fn families_carry_their_names_and_labels() {
    let mut metrics = fresh();
    metrics.record_request(200, "GET", "/", 1);
    let text = encoded(&metrics);
    let counter_lines: Vec<&str> =
        text.lines().filter(|line| line.starts_with("http_requests_total")).collect();
    assert_eq!(counter_lines, vec!["http_requests_total{method=\"GET\",path=\"/\",status=\"200\"} 1"]);
    let families: Vec<&str> = text.lines().filter(|line| line.starts_with("# TYPE")).collect();
    assert_eq!(
        families,
        vec![
            "# TYPE http_request_duration_seconds histogram",
            "# TYPE http_requests_total counter",
        ]
    );
    let buckets = text.lines().filter(|line| line.contains("_bucket{")).count();
    assert_eq!(buckets, 9);
}

#[test]
fn thirty_milliseconds_count_from_the_fifty_millisecond_bucket_up() {
    let mut metrics = fresh();
    metrics.record_request(200, "GET", "/ok", 30_000_000);
    let text = encoded(&metrics);
    for bound in ["0.005", "0.01", "0.025"] {
        let line = format!(
            "http_request_duration_seconds_bucket{{method=\"GET\",path=\"/ok\",status=\"200\",le=\"{}\"}} 0\n",
            bound
        );
        assert!(text.contains(&line), "missing line: {}", line);
    }
    for bound in ["0.05", "0.1", "0.25", "0.5", "1", "+Inf"] {
        let line = format!(
            "http_request_duration_seconds_bucket{{method=\"GET\",path=\"/ok\",status=\"200\",le=\"{}\"}} 1\n",
            bound
        );
        assert!(text.contains(&line), "missing line: {}", line);
    }
    assert!(text.contains(
        "http_request_duration_seconds_count{method=\"GET\",path=\"/ok\",status=\"200\"} 1\n"
    ));
    assert!(text.contains(
        "http_request_duration_seconds_sum{method=\"GET\",path=\"/ok\",status=\"200\"} 0.03\n"
    ));
    assert!(text.contains("http_requests_total{method=\"GET\",path=\"/ok\",status=\"200\"} 1\n"));
}

#[test]
fn other_series_stay_as_they_were() {
    let mut metrics = fresh();
    metrics.record_request(200, "GET", "/a", 7_000_000);
    metrics.record_request(404, "GET", "/b", 1_000);
    let before = encoded(&metrics);
    metrics.record_request(403, "GET", "/x", 2_000_000);
    let after = encoded(&metrics);
    for line in before.lines() {
        assert!(after.lines().any(|kept| kept == line), "changed line: {}", line);
    }
    let added: Vec<&str> =
        after.lines().filter(|line| !before.lines().any(|old| old == *line)).collect();
    assert_eq!(added.len(), 12);
    assert!(added.iter().all(|line| line.contains("path=\"/x\",status=\"403\"")));
}

#[test]
fn the_observed_duration_is_the_one_handed_in() {
    let mut metrics = fresh();
    metrics.record_request(200, "GET", "/", 250_000_000);
    metrics.record_request(200, "GET", "/", 500_000_000);
    let text = encoded(&metrics);
    assert!(text.contains(
        "http_request_duration_seconds_sum{method=\"GET\",path=\"/\",status=\"200\"} 0.75\n"
    ));
    assert!(text.contains(
        "http_request_duration_seconds_bucket{method=\"GET\",path=\"/\",status=\"200\",le=\"0.1\"} 0\n"
    ));
    assert!(text.contains(
        "http_request_duration_seconds_bucket{method=\"GET\",path=\"/\",status=\"200\",le=\"0.25\"} 1\n"
    ));
    assert!(text.contains(
        "http_request_duration_seconds_bucket{method=\"GET\",path=\"/\",status=\"200\",le=\"0.5\"} 2\n"
    ));
}

#[test]
fn label_values_that_run_together_share_a_series() {
    let mut metrics = fresh();
    metrics.record_request(200, "ab", "c", 1);
    metrics.record_request(200, "a", "bc", 1);
    let text = encoded(&metrics);
    assert!(text.contains("http_requests_total{method=\"ab\",path=\"c\",status=\"200\"} 2\n"));
    assert!(!text.contains("method=\"a\""));
    assert!(text.contains(
        "http_request_duration_seconds_count{method=\"ab\",path=\"c\",status=\"200\"} 2\n"
    ));
}

#[test]
fn every_registry_is_built_and_stands_alone() {
    let mut first = fresh();
    let second = fresh();
    first.record_request(200, "GET", "/", 1);
    assert_eq!(encoded(&second), "");
    assert!(encoded(&first).contains("http_requests_total{"));
    assert!(Metrics::new().is_ok());
}

#[test]
fn scrapes_of_an_unchanged_registry_are_the_same() {
    let mut metrics = fresh();
    metrics.record_request(200, "GET", "/b", 30_000_000);
    metrics.record_request(200, "GET", "/a", 40_000_000);
    metrics.record_request(500, "POST", "/a", 50_000_000);
    let first = encoded(&metrics);
    assert_eq!(encoded(&metrics), first);
    let a = first.find("path=\"/a\",status=\"200\"");
    let b = first.find("path=\"/b\",status=\"200\"");
    assert!(a.is_some() && b.is_some() && a < b);
}
