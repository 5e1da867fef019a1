//! Span identity and context propagation.  A context names one span for
//! propagation purposes; a context slot is the single-valued holder of the
//! currently active context on one thread of execution, read to discover a
//! new span's parent and written on start and completion.

use vstd::prelude::*;

verus! {

/// The immutable identity of one span: the trace it belongs to and its own
/// id within that trace.
pub struct SpanContext {
    pub trace_id: String,
    pub span_id: String,
}

impl Clone for SpanContext {
    fn clone(&self) -> (r: Self)
        ensures
            r == *self,
    {
        SpanContext { trace_id: self.trace_id.clone(), span_id: self.span_id.clone() }
    }
}

/// The single-slot holder of the currently active span context.  The caller
/// owns one per thread of execution and passes it to every span start and
/// completion on that thread; proper nesting then restores it exactly.
pub struct ContextSlot {
    pub current: Option<SpanContext>,
}

impl ContextSlot {
    /// A slot with no active span.
    pub fn new() -> (r: ContextSlot)
        ensures
            r.current is None,
    {
        ContextSlot { current: None }
    }

    /// A copy of the currently active context, if any.
    pub fn current_context(&self) -> (r: Option<SpanContext>)
        ensures
            r == self.current,
    {
        match &self.current {
            Some(c) => Some(c.clone()),
            None => None,
        }
    }
}

} // verus!
