//! Trace/span identifier correlation.
//!
//! Derives fixed-width lowercase hexadecimal renderings of the
//! identifiers of the currently active unit of work and attaches them to
//! structured log records, so that logs and distributed traces can be
//! correlated after the fact. Identifier generation is delegated to the
//! host's identifier generator; this module only formats and attaches.

use vstd::prelude::*;
use vstd::string::StringExecFns;
use crate::hex::{hex_render, span_id_hex, trace_id_hex};

verus! {

/// Identifiers of the currently active unit of work.
///
/// `trace_id` is shared by all spans of one logical operation; `span_id`
/// identifies one span within that trace. The all-zero pair stands for
/// "no active context".
#[derive(Clone, Copy, Debug, PartialEq, Eq, Structural)]
pub struct TraceContext {
    /// 128-bit trace identifier, shared by all spans of one operation.
    pub trace_id: u128,
    /// 64-bit span identifier, unique within its trace.
    pub span_id: u64,
}

impl TraceContext {
    /// A context is structurally well formed unless it pairs a zero trace
    /// identifier with a non-zero span identifier.
    pub open spec fn is_valid(self) -> bool {
        !(self.trace_id == 0 && self.span_id != 0)
    }

    /// The well-defined "no active context" value.
    pub open spec fn is_no_context(self) -> bool {
        self.trace_id == 0 && self.span_id == 0
    }
}

/// The "no active context" value: both identifiers zero.
pub fn no_context() -> (c: TraceContext)
    ensures
        c.is_no_context(),
        c.is_valid(),
{
    TraceContext { trace_id: 0, span_id: 0 }
}

/// The active context for the calling unit of work, or the well-defined
/// "no active context" value if none exists. Never fails.
pub fn current_context(active: Option<TraceContext>) -> (c: TraceContext)
    ensures
        active matches Some(a) ==> c == a,
        active is None ==> c.is_no_context(),
{
    match active {
        Some(a) => a,
        None => no_context(),
    }
}

/// A structured log record, reduced to the two correlation fields this
/// module owns: the fixed-width renderings of the trace and span
/// identifiers, absent until attached.
#[derive(Clone, Debug)]
pub struct LogRecord {
    /// 32-digit lowercase hex trace identifier, once attached.
    pub trace_id_field: Option<String>,
    /// 16-digit lowercase hex span identifier, once attached.
    pub span_id_field: Option<String>,
}

impl LogRecord {
    /// A record with no correlation fields attached yet.
    pub fn new() -> (r: LogRecord)
        ensures
            r.trace_id_field is None,
            r.span_id_field is None,
    {
        LogRecord { trace_id_field: None, span_id_field: None }
    }
}

/// A logic error during attachment.
#[derive(Clone, Copy, Debug, PartialEq, Eq, Structural)]
pub enum AttachError {
    /// The context was structurally malformed: a zero trace identifier
    /// paired with a non-zero span identifier. This indicates a bug in
    /// context propagation elsewhere and is surfaced, never silently
    /// fixed.
    InvalidContext,
}

/// Attaches the fixed-width renderings of `context`'s identifiers to
/// `record`: exactly 32 lowercase hex digits for the trace identifier and
/// exactly 16 for the span identifier, zero-padded. Pure with respect to
/// the context; mutates only the record. Fails, leaving the record
/// untouched, exactly when the context is malformed; the all-zero
/// "no active context" pair is accepted.
pub fn attach(record: &mut LogRecord, context: &TraceContext) -> (r: Result<(), AttachError>)
    ensures
        r is Ok <==> context.is_valid(),
        context.is_valid() ==> (final(record).trace_id_field matches Some(t) && t@ == hex_render(
            context.trace_id as nat,
            32,
        )),
        context.is_valid() ==> (final(record).span_id_field matches Some(s) && s@ == hex_render(
            context.span_id as nat,
            16,
        )),
        !context.is_valid() ==> r == Err::<(), AttachError>(AttachError::InvalidContext)
            && *final(record) == *old(record),
{
    if context.trace_id == 0 && context.span_id != 0 {
        Err(AttachError::InvalidContext)
    } else {
        record.trace_id_field = Some(trace_id_hex(context.trace_id));
        record.span_id_field = Some(span_id_hex(context.span_id));
        Ok(())
    }
}

/// A capability for log-record types that can carry propagated trace
/// information.
pub trait WithInfoPropagation: Sized {
    /// Whether the record carries the two correlation fields of
    /// `context`, rendered fixed-width.
    spec fn has_propagation_of(&self, context: TraceContext) -> bool;

    /// Returns the record with the correlation fields of `context`
    /// attached; fails exactly on a malformed context, as [`attach`]
    /// does.
    fn with_propagation(self, context: &TraceContext) -> (r: Result<Self, AttachError>)
        ensures
            context.is_valid() ==> (r matches Ok(rec) && rec.has_propagation_of(*context)),
            !context.is_valid() ==> r == Err::<Self, AttachError>(AttachError::InvalidContext),
    ;
}

impl WithInfoPropagation for LogRecord {
    open spec fn has_propagation_of(&self, context: TraceContext) -> bool {
        &&& self.trace_id_field matches Some(t) && t@ == hex_render(context.trace_id as nat, 32)
        &&& self.span_id_field matches Some(s) && s@ == hex_render(context.span_id as nat, 16)
    }

    fn with_propagation(self, context: &TraceContext) -> (r: Result<Self, AttachError>) {
        let mut rec = self;
        match attach(&mut rec, context) {
            Ok(()) => Ok(rec),
            Err(e) => Err(e),
        }
    }
}

/// The default log-filter directive for a service that sets no explicit
/// filter: the service's own events at `info` level.
pub fn default_filter_directive(service_name: &str) -> (s: String)
    ensures
        s@ == service_name@ + "=info"@,
{
    let mut s = String::from_str(service_name);
    s.append("=info");
    s
}

} // verus!
