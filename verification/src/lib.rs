//! Telemetry context propagation: span identities, the W3C `traceparent`
//! wire format, and the bookkeeping of which span is current.

pub mod context;
pub mod headers;
pub mod hex;
pub mod init;
pub mod keyvalue;
pub mod logging;
pub mod propagation;
pub mod span;
pub mod span_context;
pub mod tracer;

pub use context::{Context, ContextStack, Guard};
pub use init::{init, Backend, Otex};
pub use keyvalue::{anykvset, kvset, Key, KeyValue, Value};
pub use logging::{
    create_log_record, debug_log, error_log, info_log, log, trace_log, warn_log, Level, LogLine,
    LogRecord, Severity,
};
pub use span::{Event, Span, SpanKind, Status};
pub use span_context::{SpanContext, SpanId, TraceFlags, TraceId, TraceState};
pub use tracer::{new_error_event, new_event, new_span, new_span_with_ids};

use vstd::prelude::*;

verus! {

/// The instrumentation scope name under which every tracer, logger and meter
/// of this library is registered.
pub open spec fn app_name_text() -> Seq<char> {
    seq!['o', 't', 'e', 'x']
}

/// Returns the instrumentation scope name.
pub fn app_name() -> (name: &'static str)
    ensures
        name@ == app_name_text(),
{
    proof {
        reveal_strlit("otex");
    }
    let name = "otex";
    assert(name@ =~= app_name_text());
    name
}

} // verus!
