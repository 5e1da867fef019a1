//! In-process tracing and metrics instrumentation with an OTLP JSON exporter.
//!
//! Application code opens nested spans that record timing, attributes and log
//! events, and reports counters and gauges; the library encodes both into the
//! OTLP document shape.  The HTTP transport, the JSON text serializer and the
//! logging front-end are external collaborators: the library hands them plain
//! values and interprets what they hand back.

pub mod attrs;
pub mod clock;
pub mod context;
pub mod errors;
pub mod ids;
pub mod logger;
pub mod metrics;
pub mod otlp;
pub mod span_builder;
pub mod span_guard;
pub mod strutil;
pub mod tracer;

pub use attrs::AttrMap;
pub use clock::nanos;
pub use context::ContextSlot;
pub use context::SpanContext;
pub use ids::generate_span_id;
pub use ids::generate_trace_id;
pub use logger::LogDirective;
pub use logger::LogLevel;
pub use logger::LogLevelFilter;
pub use logger::SpanLogger;
pub use metrics::Counter;
pub use metrics::Gauge;
pub use metrics::MetricBase;
pub use span_builder::SpanBuilder;
pub use span_guard::SpanGuard;
pub use span_guard::SpanOrigin;
pub use tracer::OtlpTracer;
pub use errors::TracerError;
pub use otlp::Attribute;
pub use otlp::AttributeValue;
pub use otlp::Attributes;
pub use otlp::DataPoint;
pub use otlp::Event;
pub use otlp::Link;
pub use otlp::Metric;
pub use otlp::Resource;
pub use otlp::ResourceMetrics;
pub use otlp::ResourceMetricsRoot;
pub use otlp::ResourceSpan;
pub use otlp::ResourceSpansRoot;
pub use otlp::Scope;
pub use otlp::ScopeMetrics;
pub use otlp::ScopeSpan;
pub use otlp::Span;
pub use otlp::SpanKind;
pub use otlp::Status;
pub use otlp::StatusCode;
pub use otlp::Sum;
pub use otlp::TraceFlags;
pub use strutil::u64_to_dec;
