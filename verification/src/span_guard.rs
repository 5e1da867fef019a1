//! The span lifecycle: a guard owns one active span from start to
//! completion.  Starting reads the slot to find the parent, mints the new
//! identity and installs it; completion restores the slot to exactly what
//! it held before the start and freezes the accumulated record into one
//! export document.

use vstd::prelude::*;

use crate::attrs::AttrMap;
use crate::clock::nanos;
use crate::context::ContextSlot;
use crate::context::SpanContext;
use crate::ids::generate_span_id;
use crate::ids::generate_trace_id;
use crate::ids::is_hex_id;
use crate::logger::spec_level_str;
use crate::logger::LogLevel;
use crate::otlp::attributes_match_map;
use crate::otlp::resource_attrs_map;
use crate::otlp::spec_flags_code;
use crate::otlp::spec_kind_code;
use crate::otlp::spec_status_code;
use crate::otlp::Attributes;
use crate::otlp::Event;
use crate::otlp::Resource;
use crate::otlp::ResourceSpan;
use crate::otlp::ResourceSpansRoot;
use crate::otlp::Scope;
use crate::otlp::ScopeSpan;
use crate::otlp::Span;
use crate::otlp::SpanKind;
use crate::otlp::Status;
use crate::otlp::StatusCode;
use crate::otlp::TraceFlags;
use crate::strutil::dec_str;
use crate::strutil::u64_to_dec;
use crate::tracer::OtlpTracer;

verus! {

/// Where and on which thread a span was started: fixed attributes captured
/// by the caller at the start site.
pub struct SpanOrigin {
    pub file: String,
    pub line: u32,
    pub column: u32,
    pub thread_id: String,
    pub thread_name: String,
}

/// The guard was produced by a start that saw `parent` as the current
/// context: the parent is retained for restoration, the trace id is
/// inherited from the parent where there is one and freshly minted at a
/// root, and the span id is freshly minted.
pub open spec fn started_under(parent: Option<SpanContext>, g: SpanGuard) -> bool {
    &&& g.parent_context == parent
    &&& match parent {
        Some(p) => g.context.trace_id == p.trace_id,
        None => is_hex_id(g.context.trace_id@, 32),
    }
    &&& is_hex_id(g.context.span_id@, 16)
}

/// The fixed attributes recorded for every span from its origin.
pub open spec fn fixed_attrs_map(origin: SpanOrigin) -> Map<Seq<char>, Seq<char>> {
    Map::empty().insert("code.filepath"@, origin.file@).insert(
        "code.lineno"@,
        dec_str(origin.line as nat),
    ).insert("code.column"@, dec_str(origin.column as nat)).insert(
        "thread.id"@,
        origin.thread_id@,
    ).insert("thread.name"@, origin.thread_name@)
}

/// The end timestamp written into the record: completion never moves a
/// span's end before its start, so a clock step backwards reads as a
/// zero-duration span.
pub open spec fn spec_end_time(start: u64, end: u64) -> u64 {
    if end < start {
        start
    } else {
        end
    }
}

/// The frozen record mirrors the guard exactly: identity and parent
/// linkage, decimal-string timestamps, the kind and flag ordinals, the
/// user attributes merged over the fixed ones with the user value winning
/// on a shared key, the events in arrival order and the last status set.
pub open spec fn span_record_matches(s: Span, g: SpanGuard, end_ns: u64) -> bool {
    &&& s.trace_id == g.context.trace_id
    &&& s.span_id == g.context.span_id
    &&& s.parent_span_id@ == match g.parent_context {
        Some(p) => p.span_id@,
        None => Seq::<char>::empty(),
    }
    &&& s.name == g.name
    &&& s.start_time_unix_nano@ == dec_str(g.start_time as nat)
    &&& s.end_time_unix_nano@ == dec_str(spec_end_time(g.start_time, end_ns) as nat)
    &&& s.kind == spec_kind_code(g.kind)
    &&& s.flags == spec_flags_code(TraceFlags::Sampled)
    &&& s.trace_state@ == Seq::<char>::empty()
    &&& attributes_match_map(
        s.attributes@,
        fixed_attrs_map(g.origin).union_prefer_right(g.attributes@),
    )
    &&& s.events == g.events
    &&& s.status == g.status
    &&& s.dropped_attributes_count == 0
    &&& s.dropped_events_count == 0
    &&& s.dropped_links_count == 0
    &&& s.links@.len() == 0
}

/// The export document holds exactly one resource span, one scope span and
/// one span record for the completed guard, under the service's resource
/// attributes and this library's scope.
pub open spec fn export_matches(
    r: ResourceSpansRoot,
    g: SpanGuard,
    service: Seq<char>,
    end_ns: u64,
) -> bool {
    &&& r.resource_spans@.len() == 1
    &&& attributes_match_map(
        r.resource_spans@[0].resource.attributes@,
        resource_attrs_map(service),
    )
    &&& r.resource_spans@[0].resource.dropped_attributes_count == 0
    &&& r.resource_spans@[0].scope_spans@.len() == 1
    &&& r.resource_spans@[0].scope_spans@[0].scope.name@ == "otlp_tracer"@
    &&& r.resource_spans@[0].scope_spans@[0].scope.version@ == "0.1.0"@
    &&& r.resource_spans@[0].scope_spans@[0].scope.attributes@.len() == 0
    &&& r.resource_spans@[0].scope_spans@[0].scope.dropped_attributes_count == 0
    &&& r.resource_spans@[0].scope_spans@[0].spans@.len() == 1
    &&& span_record_matches(r.resource_spans@[0].scope_spans@[0].spans@[0], g, end_ns)
}

/// One active span: its identity, the context it will restore, and the
/// record it accumulates until completion.
pub struct SpanGuard {
    pub start_time: u64,
    pub name: String,
    pub origin: SpanOrigin,
    pub context: SpanContext,
    pub kind: SpanKind,
    pub parent_context: Option<SpanContext>,
    pub events: Vec<Event>,
    pub attributes: AttrMap,
    pub status: Status,
}

impl SpanGuard {
    /// The accumulated attribute set keeps its keys unique.
    pub open spec fn wf(&self) -> bool {
        self.attributes.wf()
    }

    /// Starts a span: the slot's current context becomes the parent — kept
    /// for restoration — the trace id is inherited from it, or minted fresh
    /// at a root, a fresh span id is minted, and the new context is
    /// installed as current.
    pub fn start(
        slot: &mut ContextSlot,
        name: &str,
        status: Status,
        kind: SpanKind,
        attributes: AttrMap,
        origin: SpanOrigin,
    ) -> (r: SpanGuard)
        requires
            attributes.wf(),
        ensures
            r.wf(),
            started_under(old(slot).current, r),
            final(slot).current == Some(r.context),
            r.name@ == name@,
            r.kind == kind,
            r.status == status,
            r.attributes == attributes,
            r.events@.len() == 0,
            r.origin == origin,
    {
        let parent_context = slot.current_context();
        let trace_id = match &parent_context {
            Some(p) => p.trace_id.clone(),
            None => generate_trace_id(),
        };
        let span_id = generate_span_id();
        let context = SpanContext { trace_id, span_id };
        slot.current = Some(context.clone());
        let start_time = nanos();
        SpanGuard {
            start_time,
            name: name.to_owned(),
            origin,
            context,
            kind,
            parent_context,
            events: Vec::new(),
            attributes,
            status,
        }
    }

    /// Stores an attribute on the active span; writing a key again replaces
    /// its value, so the later write wins.
    pub fn set_attribute(&mut self, key: &str, value: &str)
        requires
            old(self).wf(),
        ensures
            final(self).wf(),
            final(self).attributes@ == old(self).attributes@.insert(key@, value@),
            *final(self) == (SpanGuard { attributes: final(self).attributes, ..*old(self) }),
    {
        self.attributes.insert(key, value);
    }

    /// Replaces the span's status with the given message and code.
    pub fn set_status(&mut self, message: &str, code: StatusCode)
        requires
            old(self).wf(),
        ensures
            final(self).wf(),
            final(self).status.message@ == message@,
            final(self).status.code == spec_status_code(code),
            *final(self) == (SpanGuard { status: final(self).status, ..*old(self) }),
    {
        self.status = Status { message: message.to_owned(), code: code.code() };
    }

    /// Appends one timed event carrying the formatted message and its
    /// severity as the log.level attribute.
    pub fn push_event(&mut self, level: LogLevel, message: &str, time_ns: u64)
        requires
            old(self).wf(),
        ensures
            final(self).wf(),
            final(self).events@.len() == old(self).events@.len() + 1,
            forall|i: int|
                0 <= i < old(self).events@.len() ==> final(self).events@[i] == old(
                    self,
                ).events@[i],
            final(self).events@.last().name@ == message@,
            final(self).events@.last().time_unix_nano@ == dec_str(time_ns as nat),
            final(self).events@.last().attributes@.len() == 1,
            final(self).events@.last().attributes@[0].key@ == "log.level"@,
            final(self).events@.last().attributes@[0].value.string_value@ == spec_level_str(
                level,
            ),
            *final(self) == (SpanGuard { events: final(self).events, ..*old(self) }),
    {
        let mut map = AttrMap::new();
        map.insert("log.level", level.as_str());
        let attributes = Attributes::from_map(&map);
        let event = Event {
            name: message.to_owned(),
            time_unix_nano: u64_to_dec(time_ns),
            attributes: attributes.0,
        };
        proof {
            map.lemma_entries_model();
        }
        self.events.push(event);
    }

    /// Completes the span: restores the slot to the context captured at the
    /// start — exactly what was current immediately before — and freezes
    /// the record into the export document handed to the transport.
    pub fn complete(self, slot: &mut ContextSlot, tracer: &OtlpTracer, end_time_ns: u64) -> (r:
        ResourceSpansRoot)
        requires
            self.wf(),
        ensures
            final(slot).current == self.parent_context,
            export_matches(r, self, tracer.service_name@, end_time_ns),
    {
        slot.current = match &self.parent_context {
            Some(p) => Some(p.clone()),
            None => None,
        };

        let end_time = if end_time_ns < self.start_time {
            self.start_time
        } else {
            end_time_ns
        };

        let mut attrs = AttrMap::new();
        attrs.insert("code.filepath", self.origin.file.as_str());
        attrs.insert("code.lineno", u64_to_dec(self.origin.line as u64).as_str());
        attrs.insert("code.column", u64_to_dec(self.origin.column as u64).as_str());
        attrs.insert("thread.id", self.origin.thread_id.as_str());
        attrs.insert("thread.name", self.origin.thread_name.as_str());
        attrs.merge_from(&self.attributes);
        let span_attributes = Attributes::from_map(&attrs);

        let resource = Resource::for_service(tracer.service_name.as_str());
        let scope = Scope::of_library();

        let parent_span_id = match &self.parent_context {
            Some(p) => p.span_id.clone(),
            None => String::new(),
        };

        let span = Span {
            trace_id: self.context.trace_id,
            span_id: self.context.span_id,
            parent_span_id,
            name: self.name,
            start_time_unix_nano: u64_to_dec(self.start_time),
            end_time_unix_nano: u64_to_dec(end_time),
            kind: self.kind.code(),
            attributes: span_attributes.0,
            events: self.events,
            trace_state: String::new(),
            flags: TraceFlags::Sampled.code(),
            dropped_attributes_count: 0,
            dropped_events_count: 0,
            links: Vec::new(),
            dropped_links_count: 0,
            status: self.status,
        };

        ResourceSpansRoot {
            resource_spans: vec![
                ResourceSpan { resource, scope_spans: vec![ScopeSpan { scope, spans: vec![span] }] },
            ],
        }
    }
}

/// Law: after a guard completes, the slot holds exactly what it held
/// immediately before that guard started — completion restores the parent,
/// and the parent is what was current at the start.
pub proof fn lemma_context_restored(
    before: Option<SpanContext>,
    g: SpanGuard,
    after: Option<SpanContext>,
)
    requires
        started_under(before, g),
        after == g.parent_context,
    ensures
        after == before,
{
}

/// Law: for spans nested in strict LIFO order on one thread — the second
/// started while the first was current, the third while the second was —
/// all three share one trace id and each child's retained parent is exactly
/// the span above it.
pub proof fn lemma_nested_span_linkage(a: SpanGuard, b: SpanGuard, c: SpanGuard)
    requires
        started_under(Some(a.context), b),
        started_under(Some(b.context), c),
    ensures
        b.context.trace_id == a.context.trace_id,
        c.context.trace_id == a.context.trace_id,
        b.parent_context == Some(a.context),
        c.parent_context == Some(b.context),
{
}

/// Law: a trace id is minted exactly once, at the root span, and inherited
/// unchanged by every descendant: along any chain of spans each started
/// under its predecessor, every trace id equals the root's freshly minted
/// one.
pub proof fn lemma_trace_id_inherited(root: SpanGuard, chain: Seq<SpanGuard>)
    requires
        started_under(None, root),
        chain.len() > 0 ==> started_under(Some(root.context), chain[0]),
        forall|i: int|
            0 < i < chain.len() ==> started_under(Some(chain[i - 1].context), #[trigger] chain[i]),
    ensures
        is_hex_id(root.context.trace_id@, 32),
        forall|i: int|
            0 <= i < chain.len() ==> (#[trigger] chain[i].context.trace_id)
                == root.context.trace_id,
    decreases chain.len(),
{
    if chain.len() > 0 {
        let prefix = chain.drop_last();
        lemma_trace_id_inherited(root, prefix);
        assert forall|i: int| 0 <= i < chain.len() implies (#[trigger] chain[i].context.trace_id)
            == root.context.trace_id by {
            if i < chain.len() - 1 {
                assert(prefix[i] == chain[i]);
            } else if i > 0 {
                assert(started_under(Some(chain[i - 1].context), chain[i]));
                assert(prefix[i - 1] == chain[i - 1]);
            }
        }
    }
}

} // verus!
