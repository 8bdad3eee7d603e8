use http_client_metrics::{
    content_length, default_port, http_request_method, http_response_status_code,
    network_protocol_version, parse_u64, port_or_known_default, to_decimal, url_scheme,
    HttpVersion, MetricLabel, MetricsFuture, MetricsLayer, MetricsService, RequestHead,
    RequestMetrics, ResponseMetrics, ResponseOutcome,
};

fn label(key: &str, value: &str) -> MetricLabel {
    MetricLabel::new(key.to_string(), value.to_string())
}

fn head(method: &str, host: Option<&str>, port: Option<u16>, scheme: Option<&str>) -> RequestHead {
    RequestHead {
        method: method.to_string(),
        host: host.map(|h| h.to_string()),
        port,
        scheme: scheme.map(|s| s.to_string()),
        version: HttpVersion::Http11,
        body_size_lower: 7,
    }
}

#[test]
fn default_port_of_known_schemes() {
    assert_eq!(default_port(&"http".to_string()), Some(80));
    assert_eq!(default_port(&"ws".to_string()), Some(80));
    assert_eq!(default_port(&"https".to_string()), Some(443));
    assert_eq!(default_port(&"wss".to_string()), Some(443));
    assert_eq!(default_port(&"ftp".to_string()), Some(21));
    assert_eq!(default_port(&"gopher".to_string()), None);
    assert_eq!(default_port(&"HTTP".to_string()), None);
}

#[test]
fn explicit_port_wins_over_scheme_default() {
    assert_eq!(port_or_known_default(Some(8443), &Some("https".to_string())), Some(8443));
    assert_eq!(port_or_known_default(None, &Some("https".to_string())), Some(443));
    assert_eq!(port_or_known_default(None, &Some("foo".to_string())), None);
    assert_eq!(port_or_known_default(None, &None), None);
}

#[test]
fn method_labels_keep_known_methods() {
    for m in ["GET", "HEAD", "POST", "PUT", "DELETE", "CONNECT", "OPTIONS", "TRACE", "PATCH", "QUERY"] {
        assert_eq!(http_request_method(&m.to_string()), label("http.request.method", m));
    }
}

#[test]
fn method_labels_fold_other_methods() {
    assert_eq!(http_request_method(&"PURGE".to_string()), label("http.request.method", "_OTHER"));
    assert_eq!(http_request_method(&"get".to_string()), label("http.request.method", "_OTHER"));
}

#[test]
fn protocol_version_labels() {
    let cases = [
        (HttpVersion::Http09, "0.9"),
        (HttpVersion::Http10, "1.0"),
        (HttpVersion::Http11, "1.1"),
        (HttpVersion::Http2, "2"),
        (HttpVersion::Http3, "3"),
    ];
    for (v, text) in cases {
        assert_eq!(network_protocol_version(v), label("network.protocol.version", text));
    }
}

#[test]
fn scheme_labels_only_for_http_and_https() {
    assert_eq!(url_scheme(&"http".to_string()), Some(label("url.scheme", "http")));
    assert_eq!(url_scheme(&"https".to_string()), Some(label("url.scheme", "https")));
    assert_eq!(url_scheme(&"ws".to_string()), None);
}

#[test]
fn status_code_labels_are_decimal() {
    assert_eq!(http_response_status_code(200), label("http.response.status_code", "200"));
    assert_eq!(http_response_status_code(103), label("http.response.status_code", "103"));
    assert_eq!(http_response_status_code(599), label("http.response.status_code", "599"));
    assert_eq!(http_response_status_code(999), label("http.response.status_code", "999"));
}

#[test]
fn decimal_rendering() {
    assert_eq!(to_decimal(0), "0");
    assert_eq!(to_decimal(7), "7");
    assert_eq!(to_decimal(10), "10");
    assert_eq!(to_decimal(65535), "65535");
    assert_eq!(to_decimal(u64::MAX), u64::MAX.to_string());
}

#[test]
fn parsing_agrees_with_std() {
    let cases = [
        "", "0", "42", "+42", "-1", "+", "4 2", " 42", "42 ", "007", "18446744073709551615",
        "18446744073709551616", "99999999999999999999", "1a", "٣",
    ];
    for c in cases {
        assert_eq!(parse_u64(c), c.parse::<u64>().ok(), "{c:?}");
    }
}

#[test]
fn content_length_of_header_values() {
    assert_eq!(content_length(&Some(b"1234".to_vec())), 1234);
    assert_eq!(content_length(&Some(b"+5".to_vec())), 5);
    assert_eq!(content_length(&Some(b"12 ".to_vec())), 0);
    assert_eq!(content_length(&Some(b"abc".to_vec())), 0);
    assert_eq!(content_length(&Some(vec![b'1', 0x80])), 0);
    assert_eq!(content_length(&Some(vec![b'1', 0x01])), 0);
    assert_eq!(content_length(&Some(b"18446744073709551616".to_vec())), 0);
    assert_eq!(content_length(&None), 0);
}

#[test]
fn request_labels_in_order() {
    let h = RequestHead {
        method: "POST".to_string(),
        host: Some("example.com".to_string()),
        port: None,
        scheme: Some("https".to_string()),
        version: HttpVersion::Http2,
        body_size_lower: 12,
    };
    let m = RequestMetrics::new(&h);
    assert_eq!(m.http_client_request_body_size(), 12);
    assert_eq!(
        m.labels(),
        vec![
            label("http.request.method", "POST"),
            label("server.address", "example.com"),
            label("server.port", "443"),
            label("network.protocol.name", "http"),
            label("network.protocol.version", "2"),
            label("url.scheme", "https"),
        ]
    );
}

#[test]
fn request_labels_leave_out_absent_parts() {
    let m = RequestMetrics::new(&head("BREW", None, None, None));
    assert_eq!(
        m.labels(),
        vec![
            label("http.request.method", "_OTHER"),
            label("network.protocol.name", "http"),
            label("network.protocol.version", "1.1"),
        ]
    );
    let m = RequestMetrics::new(&head("GET", Some("h"), Some(8080), Some("ftp")));
    assert_eq!(
        m.labels(),
        vec![
            label("http.request.method", "GET"),
            label("server.address", "h"),
            label("server.port", "8080"),
            label("network.protocol.name", "http"),
            label("network.protocol.version", "1.1"),
        ]
    );
}

#[test]
fn response_metrics_of_a_response() {
    let outcome = ResponseOutcome::Response { status: 404, content_length: Some(b"19".to_vec()) };
    let m = ResponseMetrics::new(&outcome);
    assert_eq!(m.http_client_response_body_size(), 19);
    assert_eq!(m.labels(), vec![label("http.response.status_code", "404")]);
}

#[test]
fn response_metrics_of_an_error() {
    let outcome = ResponseOutcome::Error { message: "connection refused".to_string() };
    let m = ResponseMetrics::new(&outcome);
    assert_eq!(m.http_client_response_body_size(), 0);
    assert_eq!(m.labels(), vec![label("error.type", "connection refused")]);
}

#[test]
fn measurement_is_given_once() {
    let mut fut = MetricsFuture::new(RequestMetrics::new(&head("GET", Some("a.b"), None, Some("http"))));
    let outcome = ResponseOutcome::Response { status: 200, content_length: Some(b"3".to_vec()) };
    let first = fut.complete(&outcome, 1500).expect("first completion measures");
    assert_eq!(first.duration_millis, 1500);
    assert_eq!(first.request_body_size, 7);
    assert_eq!(first.response_body_size, 3);
    assert_eq!(
        first.labels,
        vec![
            label("http.request.method", "GET"),
            label("server.address", "a.b"),
            label("server.port", "80"),
            label("network.protocol.name", "http"),
            label("network.protocol.version", "1.1"),
            label("url.scheme", "http"),
            label("http.response.status_code", "200"),
        ]
    );
    assert!(fut.complete(&outcome, 1600).is_none());
}

#[test]
fn measurement_keys_are_distinct() {
    let mut fut = MetricsFuture::new(RequestMetrics::new(&head("GET", Some("a"), Some(1), Some("https"))));
    let outcome = ResponseOutcome::Error { message: "timeout".to_string() };
    let m = fut.complete(&outcome, 0).unwrap();
    let mut keys: Vec<&str> = m.labels.iter().map(|l| l.key.as_str()).collect();
    let n = keys.len();
    keys.sort();
    keys.dedup();
    assert_eq!(keys.len(), n);
    assert_eq!(n, 7);
}

#[test]
fn layer_wraps_the_service() {
    let svc: MetricsService<u32> = MetricsLayer.layer(5u32);
    assert_eq!(svc.into_inner(), 5);
    assert_eq!(MetricsService::new("x").into_inner(), "x");
}
