//! Fluent configuration for a span: name, initial status, kind and initial
//! attributes, producing a guard when started.

use vstd::prelude::*;

use crate::attrs::AttrMap;
use crate::context::ContextSlot;
use crate::otlp::spec_status_code;
use crate::otlp::SpanKind;
use crate::otlp::Status;
use crate::otlp::StatusCode;
use crate::span_guard::started_under;
use crate::span_guard::SpanGuard;
use crate::span_guard::SpanOrigin;

verus! {

/// Configuration accumulated before a span starts.
pub struct SpanBuilder {
    pub name: String,
    pub status: Status,
    pub kind: SpanKind,
    pub attributes: AttrMap,
}

impl SpanBuilder {
    /// The initial attribute set keeps its keys unique.
    pub open spec fn wf(&self) -> bool {
        self.attributes.wf()
    }

    /// A builder for a span with the given name: internal kind, unset
    /// status and no attributes until configured otherwise.
    pub fn new(name: &str) -> (r: SpanBuilder)
        ensures
            r.wf(),
            r.name@ == name@,
            r.kind == SpanKind::Internal,
            r.status.message@ == Seq::<char>::empty(),
            r.status.code == spec_status_code(StatusCode::Unset),
            r.attributes@ == Map::<Seq<char>, Seq<char>>::empty(),
    {
        SpanBuilder {
            name: name.to_owned(),
            status: Status { message: String::new(), code: StatusCode::Unset.code() },
            kind: SpanKind::Internal,
            attributes: AttrMap::new(),
        }
    }

    /// Adds an initial attribute; a repeated key keeps the later value.
    pub fn with_attribute(self, key: &str, value: &str) -> (r: SpanBuilder)
        requires
            self.wf(),
        ensures
            r.wf(),
            r.attributes@ == self.attributes@.insert(key@, value@),
            r.name == self.name,
            r.kind == self.kind,
            r.status == self.status,
    {
        let mut attributes = self.attributes;
        attributes.insert(key, value);
        SpanBuilder { attributes, ..self }
    }

    /// Sets the initial status.
    pub fn with_status(self, message: &str, code: StatusCode) -> (r: SpanBuilder)
        ensures
            r.status.message@ == message@,
            r.status.code == spec_status_code(code),
            r.name == self.name,
            r.kind == self.kind,
            r.attributes == self.attributes,
    {
        SpanBuilder {
            status: Status { message: message.to_owned(), code: code.code() },
            ..self
        }
    }

    /// Sets the span kind.
    pub fn with_kind(self, kind: SpanKind) -> (r: SpanBuilder)
        ensures
            r.kind == kind,
            r.name == self.name,
            r.status == self.status,
            r.attributes == self.attributes,
    {
        SpanBuilder { kind, ..self }
    }

    /// Starts the configured span under the slot's current context.
    pub fn start(self, slot: &mut ContextSlot, origin: SpanOrigin) -> (r: SpanGuard)
        requires
            self.wf(),
        ensures
            r.wf(),
            started_under(old(slot).current, r),
            final(slot).current == Some(r.context),
            r.name@ == self.name@,
            r.kind == self.kind,
            r.status == self.status,
            r.attributes == self.attributes,
            r.events@.len() == 0,
            r.origin == origin,
    {
        SpanGuard::start(slot, self.name.as_str(), self.status, self.kind, self.attributes, origin)
    }
}

} // verus!
