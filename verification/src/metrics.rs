//! Metric instruments: a counter accumulates a monotonic value, a gauge
//! holds a replaceable one.  Both share a descriptor and encode one data
//! point per upload; the transport sends the document and the caller
//! receives the interpreted result.

use vstd::prelude::*;
use vstd::wrapping::i64_specs;

use crate::attrs::AttrMap;
use crate::clock::nanos;
use crate::otlp::attributes_match_map;
use crate::otlp::resource_attrs_map;
use crate::otlp::spec_temporality_cumulative;
use crate::otlp::spec_temporality_delta;
use crate::otlp::Attributes;
use crate::otlp::DataPoint;
use crate::otlp::Metric;
use crate::otlp::Resource;
use crate::otlp::ResourceMetrics;
use crate::otlp::ResourceMetricsRoot;
use crate::otlp::Scope;
use crate::otlp::ScopeMetrics;
use crate::otlp::Sum;
use crate::strutil::dec_str;
use crate::strutil::u64_to_dec;
use crate::tracer::OtlpTracer;

verus! {

/// The descriptor and state shared by every instrument: where it exports
/// to, what it is called, and its current signed 64-bit value with its
/// fixed attribute set.
pub struct MetricBase {
    pub tracer: OtlpTracer,
    pub name: String,
    pub description: String,
    pub unit: String,
    pub value: i64,
    pub attributes: AttrMap,
}

/// The export document for one instrument reading: one resource, this
/// library's scope, one metric with the descriptor's fields, and a single
/// data point carrying the given timestamps and the instrument's value.
pub open spec fn metric_export_matches(
    r: ResourceMetricsRoot,
    base: MetricBase,
    start_ns: u64,
    time_ns: u64,
    is_monotonic: bool,
    aggregation_temporality: i64,
) -> bool {
    &&& r.resource_metrics@.len() == 1
    &&& attributes_match_map(
        r.resource_metrics@[0].resource.attributes@,
        resource_attrs_map(base.tracer.service_name@),
    )
    &&& r.resource_metrics@[0].resource.dropped_attributes_count == 0
    &&& r.resource_metrics@[0].scope_metrics@.len() == 1
    &&& r.resource_metrics@[0].scope_metrics@[0].scope.name@ == "otlp_tracer"@
    &&& r.resource_metrics@[0].scope_metrics@[0].scope.version@ == "0.1.0"@
    &&& r.resource_metrics@[0].scope_metrics@[0].metrics@.len() == 1
    &&& r.resource_metrics@[0].scope_metrics@[0].metrics@[0].name == base.name
    &&& r.resource_metrics@[0].scope_metrics@[0].metrics@[0].description == base.description
    &&& r.resource_metrics@[0].scope_metrics@[0].metrics@[0].unit == base.unit
    &&& r.resource_metrics@[0].scope_metrics@[0].metrics@[0].sum.aggregation_temporality
        == aggregation_temporality
    &&& r.resource_metrics@[0].scope_metrics@[0].metrics@[0].sum.is_monotonic == is_monotonic
    &&& r.resource_metrics@[0].scope_metrics@[0].metrics@[0].sum.data_points@.len() == 1
    &&& attributes_match_map(
        r.resource_metrics@[0].scope_metrics@[0].metrics@[0].sum.data_points@[0].attributes@,
        base.attributes@,
    )
    &&& r.resource_metrics@[0].scope_metrics@[0].metrics@[0].sum.data_points@[
        0
    ].start_time_unix_nano@ == dec_str(start_ns as nat)
    &&& r.resource_metrics@[0].scope_metrics@[0].metrics@[0].sum.data_points@[0].time_unix_nano@
        == dec_str(time_ns as nat)
    &&& r.resource_metrics@[0].scope_metrics@[0].metrics@[0].sum.data_points@[0].as_double
        == base.value
}

impl MetricBase {
    /// The fixed attribute set keeps its keys unique.
    pub open spec fn wf(&self) -> bool {
        self.attributes.wf()
    }

    /// A descriptor with a zero value and no attributes.
    pub fn new(tracer: OtlpTracer, name: &str, description: &str, unit: &str) -> (r: MetricBase)
        ensures
            r.wf(),
            r.tracer == tracer,
            r.name@ == name@,
            r.description@ == description@,
            r.unit@ == unit@,
            r.value == 0,
            r.attributes@ == Map::<Seq<char>, Seq<char>>::empty(),
    {
        MetricBase {
            tracer,
            name: name.to_owned(),
            description: description.to_owned(),
            unit: unit.to_owned(),
            value: 0,
            attributes: AttrMap::new(),
        }
    }

    /// Adds one fixed attribute; a repeated key keeps the later value.
    pub fn with_attribute(&mut self, key: &str, value: &str)
        requires
            old(self).wf(),
        ensures
            final(self).wf(),
            final(self).attributes@ == old(self).attributes@.insert(key@, value@),
            *final(self) == (MetricBase { attributes: final(self).attributes, ..*old(self) }),
    {
        self.attributes.insert(key, value);
    }

    /// The current value.
    pub fn get_value(&self) -> (r: i64)
        ensures
            r == self.value,
    {
        self.value
    }

    /// Replaces the value.
    pub fn set_value(&mut self, value: i64)
        ensures
            *final(self) == (MetricBase { value, ..*old(self) }),
    {
        self.value = value;
    }

    /// Increases the value, wrapping on signed overflow.
    pub fn add_value(&mut self, value: i64)
        ensures
            final(self).value == i64_specs::wrapping_add(old(self).value, value),
            *final(self) == (MetricBase { value: final(self).value, ..*old(self) }),
    {
        self.value = self.value.wrapping_add(value);
    }

    /// Encodes the current reading as one export document with the given
    /// interval timestamps, monotonicity and temporality.
    pub fn export_document(
        &self,
        start_time_ns: u64,
        time_ns: u64,
        is_monotonic: bool,
        aggregation_temporality: i64,
    ) -> (r: ResourceMetricsRoot)
        requires
            self.wf(),
        ensures
            metric_export_matches(
                r,
                *self,
                start_time_ns,
                time_ns,
                is_monotonic,
                aggregation_temporality,
            ),
    {
        let data_point = DataPoint {
            attributes: Attributes::from_map(&self.attributes).0,
            start_time_unix_nano: u64_to_dec(start_time_ns),
            time_unix_nano: u64_to_dec(time_ns),
            as_double: self.get_value(),
        };

        let metric = Metric {
            name: self.name.clone(),
            description: self.description.clone(),
            unit: self.unit.clone(),
            sum: Sum {
                aggregation_temporality,
                is_monotonic,
                data_points: vec![data_point],
            },
        };

        let scope_metrics = ScopeMetrics { scope: Scope::of_library(), metrics: vec![metric] };

        let resource_metrics = ResourceMetrics {
            resource: Resource::for_service(self.tracer.service_name.as_str()),
            scope_metrics: vec![scope_metrics],
        };

        ResourceMetricsRoot { resource_metrics: vec![resource_metrics] }
    }
}

/// A monotonic, cumulative instrument: its value only grows through `add`,
/// and every upload reports the total since the interval start fixed at
/// construction.
pub struct Counter {
    pub base: MetricBase,
    pub start_time: u64,
}

impl Counter {
    /// The fixed attribute set keeps its keys unique.
    pub open spec fn wf(&self) -> bool {
        self.base.wf()
    }

    /// A counter at zero; the cumulative interval's start is captured now
    /// and never moves.
    pub fn new(tracer: OtlpTracer, name: &str, description: &str, unit: &str) -> (r: Counter)
        ensures
            r.wf(),
            r.base.tracer == tracer,
            r.base.name@ == name@,
            r.base.description@ == description@,
            r.base.unit@ == unit@,
            r.base.value == 0,
            r.base.attributes@ == Map::<Seq<char>, Seq<char>>::empty(),
    {
        let start_time = nanos();
        Counter { base: MetricBase::new(tracer, name, description, unit), start_time }
    }

    /// Adds one fixed attribute; attributes are set only through this
    /// builder chain, never after construction.
    pub fn with_attribute(self, key: &str, value: &str) -> (r: Counter)
        requires
            self.wf(),
        ensures
            r.wf(),
            r.base.attributes@ == self.base.attributes@.insert(key@, value@),
            r.base == (MetricBase { attributes: r.base.attributes, ..self.base }),
            r.start_time == self.start_time,
    {
        let mut base = self.base;
        base.with_attribute(key, value);
        Counter { base, start_time: self.start_time }
    }

    /// Increases the value by one, wrapping on signed overflow.
    pub fn inc(&mut self)
        ensures
            final(self).base.value == i64_specs::wrapping_add(old(self).base.value, 1),
            final(self).base == (MetricBase {
                value: final(self).base.value,
                ..old(self).base
            }),
            final(self).start_time == old(self).start_time,
    {
        self.add(1);
    }

    /// Increases the value, wrapping on signed overflow.
    pub fn add(&mut self, value: i64)
        ensures
            final(self).base.value == i64_specs::wrapping_add(old(self).base.value, value),
            final(self).base == (MetricBase {
                value: final(self).base.value,
                ..old(self).base
            }),
            final(self).start_time == old(self).start_time,
    {
        self.base.add_value(value);
    }

    /// Encodes the counter's current total as one cumulative, monotonic
    /// data point over the interval from construction to `now_ns`.  Reads
    /// the counter and mutates nothing.
    pub fn export_document(&self, now_ns: u64) -> (r: ResourceMetricsRoot)
        requires
            self.wf(),
        ensures
            metric_export_matches(
                r,
                self.base,
                self.start_time,
                now_ns,
                true,
                spec_temporality_cumulative(),
            ),
    {
        self.base.export_document(self.start_time, now_ns, true, 2)
    }
}

/// A non-monotonic, point-in-time instrument: its value is replaced through
/// `set`, and every upload reports it over a degenerate instant interval.
pub struct Gauge {
    pub base: MetricBase,
}

impl Gauge {
    /// The fixed attribute set keeps its keys unique.
    pub open spec fn wf(&self) -> bool {
        self.base.wf()
    }

    /// A gauge at zero.
    pub fn new(tracer: OtlpTracer, name: &str, description: &str, unit: &str) -> (r: Gauge)
        ensures
            r.wf(),
            r.base.tracer == tracer,
            r.base.name@ == name@,
            r.base.description@ == description@,
            r.base.unit@ == unit@,
            r.base.value == 0,
            r.base.attributes@ == Map::<Seq<char>, Seq<char>>::empty(),
    {
        Gauge { base: MetricBase::new(tracer, name, description, unit) }
    }

    /// Adds one fixed attribute; attributes are set only through this
    /// builder chain, never after construction.
    pub fn with_attribute(self, key: &str, value: &str) -> (r: Gauge)
        requires
            self.wf(),
        ensures
            r.wf(),
            r.base.attributes@ == self.base.attributes@.insert(key@, value@),
            r.base == (MetricBase { attributes: r.base.attributes, ..self.base }),
    {
        let mut base = self.base;
        base.with_attribute(key, value);
        Gauge { base }
    }

    /// Replaces the value.
    pub fn set(&mut self, value: i64)
        ensures
            final(self).base == (MetricBase { value, ..old(self).base }),
    {
        self.base.set_value(value);
    }

    /// Encodes the gauge's current value as one delta, non-monotonic data
    /// point at the instant `now_ns`.  Reads the gauge and mutates nothing.
    pub fn export_document(&self, now_ns: u64) -> (r: ResourceMetricsRoot)
        requires
            self.wf(),
        ensures
            metric_export_matches(r, self.base, now_ns, now_ns, false, spec_temporality_delta()),
    {
        self.base.export_document(now_ns, now_ns, false, 1)
    }
}

/// The value reached after performing a sequence of wrapping adds in order.
pub open spec fn fold_adds(start: i64, amounts: Seq<i64>) -> i64
    decreases amounts.len(),
{
    if amounts.len() == 0 {
        start
    } else {
        fold_adds(i64_specs::wrapping_add(start, amounts[0]), amounts.drop_first())
    }
}

/// Law: two adds commute — performing them in either order from the same
/// start reaches the same value, so the serialization order of concurrent
/// adds cannot change the total.
pub proof fn lemma_adds_commute(start: i64, x: i64, y: i64)
    ensures
        i64_specs::wrapping_add(i64_specs::wrapping_add(start, x), y) == i64_specs::wrapping_add(
            i64_specs::wrapping_add(start, y),
            x,
        ),
{
}

/// Law: however many concurrent unit increments interleave, the counter
/// ends at its start plus their number, as long as that sum stays in
/// range: any sequence of unit adds — `n` threads each adding one `m`
/// times gives a sequence of length `n * m` — totals exactly its length.
pub proof fn lemma_concurrent_unit_adds(start: i64, amounts: Seq<i64>)
    requires
        forall|i: int| 0 <= i < amounts.len() ==> #[trigger] amounts[i] == 1,
        start + amounts.len() <= i64::MAX,
    ensures
        fold_adds(start, amounts) == start + amounts.len(),
    decreases amounts.len(),
{
    if amounts.len() > 0 {
        assert(i64_specs::wrapping_add(start, amounts[0]) == start + 1);
        lemma_concurrent_unit_adds((start + 1) as i64, amounts.drop_first());
    }
}

} // verus!
