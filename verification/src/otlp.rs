//! The OTLP document model: the exact shapes the exporter sends, with
//! 64-bit timestamps carried as decimal strings and every attribute value
//! carried as a string.  Encoding into these shapes never fails for
//! well-formed descriptors; a JSON text serializer turns them into bytes
//! outside this library.

use vstd::prelude::*;

use crate::attrs::AttrMap;

verus! {

/// The role of a span, encoded as its OTLP ordinal.
#[derive(Clone, Copy, PartialEq, Eq, Structural, Debug)]
pub enum SpanKind {
    Unspecified,
    Internal,
    Server,
    Client,
    Producer,
    Consumer,
}

/// The OTLP ordinal of a span kind.
pub open spec fn spec_kind_code(k: SpanKind) -> i64 {
    match k {
        SpanKind::Unspecified => 0,
        SpanKind::Internal => 1,
        SpanKind::Server => 2,
        SpanKind::Client => 3,
        SpanKind::Producer => 4,
        SpanKind::Consumer => 5,
    }
}

impl SpanKind {
    /// The OTLP ordinal of this kind.
    pub fn code(&self) -> (r: i64)
        ensures
            r == spec_kind_code(*self),
    {
        match self {
            SpanKind::Unspecified => 0,
            SpanKind::Internal => 1,
            SpanKind::Server => 2,
            SpanKind::Client => 3,
            SpanKind::Producer => 4,
            SpanKind::Consumer => 5,
        }
    }
}

/// Trace flag bits; only the sampled bit is ever set.
#[derive(Clone, Copy, PartialEq, Eq, Structural, Debug)]
pub enum TraceFlags {
    Sampled,
}

/// The OTLP value of a trace flag.
pub open spec fn spec_flags_code(f: TraceFlags) -> i64 {
    match f {
        TraceFlags::Sampled => 1,
    }
}

impl TraceFlags {
    /// The OTLP value of this flag.
    pub fn code(&self) -> (r: i64)
        ensures
            r == spec_flags_code(*self),
    {
        match self {
            TraceFlags::Sampled => 1,
        }
    }
}

/// A span's outcome classification, encoded as its OTLP ordinal.
#[derive(Clone, Copy, PartialEq, Eq, Structural, Debug)]
pub enum StatusCode {
    Unset,
    Okay,
    Error,
}

/// The OTLP ordinal of a status code.
pub open spec fn spec_status_code(c: StatusCode) -> i64 {
    match c {
        StatusCode::Unset => 0,
        StatusCode::Okay => 1,
        StatusCode::Error => 2,
    }
}

impl StatusCode {
    /// The OTLP ordinal of this status code.
    pub fn code(&self) -> (r: i64)
        ensures
            r == spec_status_code(*self),
    {
        match self {
            StatusCode::Unset => 0,
            StatusCode::Okay => 1,
            StatusCode::Error => 2,
        }
    }
}

/// A span's status: a message and an OTLP status-code ordinal.
#[derive(Clone)]
pub struct Status {
    pub message: String,
    pub code: i64,
}

/// One attribute value; OTLP's typed value union restricted to strings.
#[derive(Clone)]
pub struct AttributeValue {
    pub string_value: String,
}

/// One key/value attribute.
#[derive(Clone)]
pub struct Attribute {
    pub key: String,
    pub value: AttributeValue,
}

/// An attribute list as it appears on the wire.
pub struct Attributes(pub Vec<Attribute>);

/// An attribute list faithfully renders a mapping: every listed entry is in
/// the map with its listed value, every map key is listed, and no key is
/// listed twice.
pub open spec fn attributes_match_map(attrs: Seq<Attribute>, m: Map<Seq<char>, Seq<char>>) -> bool {
    &&& forall|i: int|
        0 <= i < attrs.len() ==> m.dom().contains(#[trigger] attrs[i].key@) && m[attrs[i].key@]
            == attrs[i].value.string_value@
    &&& forall|k: Seq<char>|
        m.dom().contains(k) ==> exists|i: int| 0 <= i < attrs.len() && #[trigger] attrs[i].key@ == k
    &&& forall|i: int, j: int| 0 <= i < j < attrs.len() ==> attrs[i].key@ != attrs[j].key@
}

impl Attributes {
    /// Renders an attribute set as the wire-shaped list, entry for entry.
    pub fn from_map(m: &AttrMap) -> (r: Attributes)
        requires
            m.wf(),
        ensures
            r.0@.len() == m.entries().len(),
            forall|i: int|
                0 <= i < r.0@.len() ==> #[trigger] r.0@[i].key@ == m.entries()[i].0 && r.0@[
                    i
                ].value.string_value@ == m.entries()[i].1,
            attributes_match_map(r.0@, m@),
    {
        let n = m.len();
        let mut out: Vec<Attribute> = Vec::new();
        let mut i: usize = 0;
        while i < n
            invariant
                i <= n,
                n == m.entries().len(),
                m.wf(),
                out@.len() == i,
                forall|j: int|
                    0 <= j < i ==> #[trigger] out@[j].key@ == m.entries()[j].0 && out@[
                        j
                    ].value.string_value@ == m.entries()[j].1,
            decreases n - i,
        {
            let key = m.key_at(i).clone();
            let value = m.value_at(i).clone();
            out.push(Attribute { key, value: AttributeValue { string_value: value } });
            i = i + 1;
        }
        proof {
            m.lemma_entries_model();
            assert forall|k: Seq<char>| m@.dom().contains(k) implies exists|j: int|
                0 <= j < out@.len() && #[trigger] out@[j].key@ == k by {
                let j = choose|j: int|
                    0 <= j < m.entries().len() && #[trigger] m.entries()[j].0 == k;
                assert(out@[j].key@ == k);
            }
        }
        Attributes(out)
    }
}

/// The resource attributes attached to every export for a service.
pub open spec fn resource_attrs_map(service: Seq<char>) -> Map<Seq<char>, Seq<char>> {
    Map::empty().insert("telemetry.sdk.language"@, "rust"@).insert(
        "telemetry.sdk.version"@,
        "0.1.0"@,
    ).insert("telemetry.sdk.name"@, "opentelemetry"@).insert("service.name"@, service)
}

/// One timed event recorded inside a span.
#[derive(Clone)]
pub struct Event {
    pub name: String,
    pub time_unix_nano: String,
    pub attributes: Vec<Attribute>,
}

/// A span link; this exporter never fills one in.
pub struct Link {}

/// One completed span as it appears on the wire.
pub struct Span {
    pub trace_id: String,
    pub span_id: String,
    pub parent_span_id: String,
    pub name: String,
    pub start_time_unix_nano: String,
    pub end_time_unix_nano: String,
    pub kind: i64,
    pub attributes: Vec<Attribute>,
    pub events: Vec<Event>,
    pub trace_state: String,
    pub flags: i64,
    pub dropped_attributes_count: i64,
    pub dropped_events_count: i64,
    pub links: Vec<Link>,
    pub dropped_links_count: i64,
    pub status: Status,
}

/// Metadata describing the emitting process, attached to every export.
pub struct Resource {
    pub attributes: Vec<Attribute>,
    pub dropped_attributes_count: i64,
}

/// Metadata describing the instrumentation library itself.
pub struct Scope {
    pub name: String,
    pub version: String,
    pub attributes: Vec<Attribute>,
    pub dropped_attributes_count: i64,
}

/// Spans grouped under one instrumentation scope.
pub struct ScopeSpan {
    pub scope: Scope,
    pub spans: Vec<Span>,
}

/// Spans grouped under one resource.
pub struct ResourceSpan {
    pub resource: Resource,
    pub scope_spans: Vec<ScopeSpan>,
}

/// The root of a trace-export document.
pub struct ResourceSpansRoot {
    pub resource_spans: Vec<ResourceSpan>,
}

/// One cumulative or point-in-time measurement.
pub struct DataPoint {
    pub attributes: Vec<Attribute>,
    pub start_time_unix_nano: String,
    pub time_unix_nano: String,
    pub as_double: i64,
}

/// A sum aggregation: its temporality, monotonicity and data points.
pub struct Sum {
    pub aggregation_temporality: i64,
    pub is_monotonic: bool,
    pub data_points: Vec<DataPoint>,
}

/// One named metric with a sum aggregation.
pub struct Metric {
    pub name: String,
    pub description: String,
    pub unit: String,
    pub sum: Sum,
}

/// Metrics grouped under one instrumentation scope.
pub struct ScopeMetrics {
    pub scope: Scope,
    pub metrics: Vec<Metric>,
}

/// Metrics grouped under one resource.
pub struct ResourceMetrics {
    pub resource: Resource,
    pub scope_metrics: Vec<ScopeMetrics>,
}

/// The root of a metric-export document.
pub struct ResourceMetricsRoot {
    pub resource_metrics: Vec<ResourceMetrics>,
}

impl Resource {
    /// The resource block attached to every export: the service's identity
    /// and the sdk description, with nothing dropped.
    pub fn for_service(service_name: &str) -> (r: Resource)
        ensures
            attributes_match_map(r.attributes@, resource_attrs_map(service_name@)),
            r.dropped_attributes_count == 0,
    {
        let mut attrs = AttrMap::new();
        attrs.insert("telemetry.sdk.language", "rust");
        attrs.insert("telemetry.sdk.version", "0.1.0");
        attrs.insert("telemetry.sdk.name", "opentelemetry");
        attrs.insert("service.name", service_name);
        Resource { attributes: Attributes::from_map(&attrs).0, dropped_attributes_count: 0 }
    }
}

impl Scope {
    /// The scope block naming this instrumentation library.
    pub fn of_library() -> (r: Scope)
        ensures
            r.name@ == "otlp_tracer"@,
            r.version@ == "0.1.0"@,
            r.attributes@.len() == 0,
            r.dropped_attributes_count == 0,
    {
        Scope {
            name: "otlp_tracer".to_owned(),
            version: "0.1.0".to_owned(),
            attributes: Vec::new(),
            dropped_attributes_count: 0,
        }
    }
}

/// The aggregation-temporality ordinal for a value reported relative to the
/// previous report.
pub open spec fn spec_temporality_delta() -> i64 {
    1
}

/// The aggregation-temporality ordinal for a value accumulated since a fixed
/// start.
pub open spec fn spec_temporality_cumulative() -> i64 {
    2
}

} // verus!
