use otlp_tracer::tracer::parse_header_string;
use otlp_tracer::OtlpTracer;
use otlp_tracer::TracerError;

const TRACES: &str = "http://tempo.example:4318/v1/traces";
const METRICS: &str = "http://tempo.example:4318/v1/metrics";

#[test]
fn construction_succeeds_on_parsable_endpoints() {
    let t = OtlpTracer::new(TRACES, METRICS, "svc").unwrap();
    assert_eq!(t.traces_endpoint, TRACES);
    assert_eq!(t.metrics_endpoint, METRICS);
    assert_eq!(t.service_name, "svc");
    assert_eq!(t.headers, "");
}

#[test]
fn construction_fails_fast_on_unparsable_endpoint() {
    let r = OtlpTracer::new("http://exa mple.com/\u{7f}", METRICS, "svc");
    let e = r.err().unwrap();
    assert!(e.is_config_error());
    assert!(matches!(e, TracerError::ConfigError { .. }));
}

#[test]
fn construction_checks_the_metrics_endpoint_too() {
    let r = OtlpTracer::new(TRACES, "not a uri at all \u{7f}", "svc");
    let e = r.err().unwrap();
    assert!(e.is_config_error());
    if let TracerError::ConfigError { message } = e {
        assert!(message.contains("not a uri"));
    } else {
        unreachable!();
    }
}

#[test]
fn http_500_yields_protocol_error_with_status_and_body() {
    let r = OtlpTracer::interpret_response(Ok((500, "boom".to_string())));
    let e = r.err().unwrap();
    assert!(e.is_protocol_error());
    match &e {
        TracerError::ProtocolError { status, body } => {
            assert_eq!(*status, 500);
            assert_eq!(body, "boom");
        }
        _ => unreachable!(),
    }
    let rendered = e.message();
    assert_eq!(rendered, "upload failed: 500 boom");
    assert!(rendered.contains("500"));
    assert!(rendered.contains("boom"));
}

#[test]
fn http_200_yields_success() {
    assert!(OtlpTracer::interpret_response(Ok((200, String::new()))).is_ok());
    assert!(OtlpTracer::interpret_response(Ok((204, String::new()))).is_err());
}

#[test]
fn transport_failure_yields_transport_error() {
    let r = OtlpTracer::interpret_response(Err("connection refused".to_string()));
    match r.err().unwrap() {
        TracerError::TransportError { message } => {
            assert_eq!(message, "connection refused");
        }
        _ => unreachable!(),
    }
}

#[test]
fn failed_upload_mutates_no_instrument_state() {
    let t = OtlpTracer::new(TRACES, METRICS, "svc").unwrap();
    let mut c = otlp_tracer::Counter::new(t, "n", "", "1");
    c.add(7);
    let _doc = c.export_document(1);
    let r = OtlpTracer::interpret_response(Ok((500, "boom".to_string())));
    assert!(r.is_err());
    let doc = c.export_document(2);
    assert_eq!(
        doc.resource_metrics[0].scope_metrics[0].metrics[0].sum.data_points[0].as_double,
        7
    );
}

#[test]
fn header_string_parses_pairs_and_trims() {
    let pairs = parse_header_string("a=1, b = two ,c=3");
    assert_eq!(pairs.len(), 3);
    assert_eq!(pairs[0], ("a".to_string(), "1".to_string()));
    assert_eq!(pairs[1], ("b".to_string(), "two".to_string()));
    assert_eq!(pairs[2], ("c".to_string(), "3".to_string()));
}

#[test]
fn header_segment_without_equals_is_skipped() {
    let pairs = parse_header_string("plain,x=1");
    assert_eq!(pairs.len(), 1);
    assert_eq!(pairs[0], ("x".to_string(), "1".to_string()));
}

#[test]
fn header_value_may_contain_equals() {
    let pairs = parse_header_string("cookie=a=b");
    assert_eq!(pairs.len(), 1);
    assert_eq!(pairs[0].0, "cookie");
    assert_eq!(pairs[0].1, "a=b");
}

#[test]
fn empty_header_string_yields_no_pairs() {
    assert!(parse_header_string("").is_empty());
}

#[test]
fn request_headers_carry_length_host_and_statics() {
    let t = OtlpTracer::new(TRACES, METRICS, "svc")
        .unwrap()
        .with_headers("x-api-key=k1");
    let headers = t.request_headers(false, 1234);
    assert_eq!(headers.len(), 4);
    assert_eq!(
        headers[0],
        ("Content-Type".to_string(), "application/json".to_string())
    );
    assert_eq!(headers[1], ("Content-Length".to_string(), "1234".to_string()));
    assert_eq!(headers[2], ("Host".to_string(), "tempo.example".to_string()));
    assert_eq!(headers[3], ("x-api-key".to_string(), "k1".to_string()));
}

#[test]
fn request_headers_without_statics_hold_three_entries() {
    let t = OtlpTracer::new(TRACES, METRICS, "svc").unwrap();
    let headers = t.request_headers(true, 0);
    assert_eq!(headers.len(), 3);
    assert_eq!(headers[1], ("Content-Length".to_string(), "0".to_string()));
    assert_eq!(headers[2], ("Host".to_string(), "tempo.example".to_string()));
}

#[test]
fn config_error_message_names_the_endpoint() {
    let r = OtlpTracer::new("://missing-scheme \u{7f}", METRICS, "svc");
    let e = r.err().unwrap();
    let rendered = e.message();
    assert!(rendered.starts_with("invalid endpoint: "));
}
