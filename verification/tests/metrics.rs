use otlp_tracer::Attribute;
use otlp_tracer::Counter;
use otlp_tracer::Gauge;
use otlp_tracer::Metric;
use otlp_tracer::OtlpTracer;
use otlp_tracer::ResourceMetricsRoot;

fn tracer() -> OtlpTracer {
    OtlpTracer::new(
        "http://collector.example:4318/v1/traces",
        "http://collector.example:4318/v1/metrics",
        "metric-service",
    )
    .unwrap()
}

fn only_metric(doc: &ResourceMetricsRoot) -> &Metric {
    assert_eq!(doc.resource_metrics.len(), 1);
    assert_eq!(doc.resource_metrics[0].scope_metrics.len(), 1);
    assert_eq!(doc.resource_metrics[0].scope_metrics[0].metrics.len(), 1);
    &doc.resource_metrics[0].scope_metrics[0].metrics[0]
}

fn attr_value(attrs: &Vec<Attribute>, key: &str) -> Option<String> {
    let mut found = None;
    for a in attrs {
        if a.key == key {
            found = Some(a.value.string_value.clone());
        }
    }
    found
}

#[test]
fn counter_adds_accumulate_into_one_cumulative_point() {
    let mut c = Counter::new(tracer(), "requests", "how many", "1");
    c.add(3);
    c.add(4);
    let doc = c.export_document(555);
    let metric = only_metric(&doc);

    assert_eq!(metric.name, "requests");
    assert_eq!(metric.description, "how many");
    assert_eq!(metric.unit, "1");
    assert_eq!(metric.sum.aggregation_temporality, 2);
    assert!(metric.sum.is_monotonic);
    assert_eq!(metric.sum.data_points.len(), 1);
    assert_eq!(metric.sum.data_points[0].as_double, 7);
    assert_eq!(metric.sum.data_points[0].time_unix_nano, "555");
}

#[test]
fn counter_inc_is_add_one() {
    let mut c = Counter::new(tracer(), "n", "", "1");
    c.inc();
    c.inc();
    c.inc();
    let doc = c.export_document(1);
    assert_eq!(only_metric(&doc).sum.data_points[0].as_double, 3);
}

#[test]
fn counter_interval_start_is_fixed_at_construction() {
    let mut c = Counter::new(tracer(), "n", "", "1");
    let start = c.start_time;
    c.add(1);
    let first = c.export_document(start + 10);
    let second = c.export_document(start + 20);
    assert_eq!(
        only_metric(&first).sum.data_points[0].start_time_unix_nano,
        start.to_string()
    );
    assert_eq!(
        only_metric(&second).sum.data_points[0].start_time_unix_nano,
        start.to_string()
    );
}

#[test]
fn counter_add_wraps_on_signed_overflow() {
    let mut c = Counter::new(tracer(), "n", "", "1");
    c.add(i64::MAX);
    c.add(1);
    let doc = c.export_document(1);
    assert_eq!(only_metric(&doc).sum.data_points[0].as_double, i64::MIN);
}

#[test]
fn counter_export_does_not_consume_adds() {
    let mut c = Counter::new(tracer(), "n", "", "1");
    c.add(5);
    let _ = c.export_document(1);
    c.add(5);
    let doc = c.export_document(2);
    assert_eq!(only_metric(&doc).sum.data_points[0].as_double, 10);
}

#[test]
fn gauge_uploads_are_independent_points() {
    let mut g = Gauge::new(tracer(), "depth", "queue depth", "1");
    g.set(10);
    let first = g.export_document(100);
    g.set(3);
    let second = g.export_document(200);

    let m1 = only_metric(&first);
    let m2 = only_metric(&second);
    assert_eq!(m1.sum.data_points[0].as_double, 10);
    assert_eq!(m2.sum.data_points[0].as_double, 3);
    assert_eq!(m1.sum.aggregation_temporality, 1);
    assert_eq!(m2.sum.aggregation_temporality, 1);
    assert!(!m1.sum.is_monotonic);
    assert!(!m2.sum.is_monotonic);
}

#[test]
fn gauge_point_interval_is_degenerate() {
    let mut g = Gauge::new(tracer(), "depth", "", "1");
    g.set(1);
    let doc = g.export_document(777);
    let point = &only_metric(&doc).sum.data_points[0];
    assert_eq!(point.start_time_unix_nano, "777");
    assert_eq!(point.time_unix_nano, "777");
}

#[test]
fn gauge_set_replaces_rather_than_accumulates() {
    let mut g = Gauge::new(tracer(), "v", "", "1");
    g.set(100);
    g.set(-4);
    let doc = g.export_document(1);
    assert_eq!(only_metric(&doc).sum.data_points[0].as_double, -4);
}

#[test]
fn instrument_attributes_reach_the_data_point() {
    let mut c = Counter::new(tracer(), "n", "", "1")
        .with_attribute("region", "eu")
        .with_attribute("zone", "a");
    c.add(1);
    let doc = c.export_document(1);
    let point = &only_metric(&doc).sum.data_points[0];
    assert_eq!(attr_value(&point.attributes, "region").unwrap(), "eu");
    assert_eq!(attr_value(&point.attributes, "zone").unwrap(), "a");
}

#[test]
fn metric_resource_names_the_service() {
    let mut g = Gauge::new(tracer(), "v", "", "1");
    g.set(1);
    let doc = g.export_document(1);
    let resource = &doc.resource_metrics[0].resource;
    assert_eq!(
        attr_value(&resource.attributes, "service.name").unwrap(),
        "metric-service"
    );
    let scope = &doc.resource_metrics[0].scope_metrics[0].scope;
    assert_eq!(scope.name, "otlp_tracer");
    assert_eq!(scope.version, "0.1.0");
}

#[test]
fn many_unit_adds_total_their_count() {
    let mut c = Counter::new(tracer(), "n", "", "1");
    let threads: i64 = 8;
    let per_thread: i64 = 1000;
    for _ in 0..(threads * per_thread) {
        c.add(1);
    }
    let doc = c.export_document(1);
    assert_eq!(
        only_metric(&doc).sum.data_points[0].as_double,
        threads * per_thread
    );
}
