//! Making spans, and recording events against the current one.

use crate::context::{Context, ContextStack, ContextView};
use crate::keyvalue::{attributes_view, KeyValue};
use crate::span::{EventView, Span, SpanKind, SpanView, Status, StatusView};
use crate::span_context::{
    view_of, SpanContext, SpanContextView, SpanId, TraceFlags, TraceId, TraceState,
};
use opentelemetry_sdk::trace::{IdGenerator, RandomIdGenerator};
use vstd::prelude::*;

verus! {

/// The span context of a span made under `parent` with the fresh ids given.
/// Under a valid parent the span joins the parent's trace and keeps its flags
/// and trace state; otherwise it opens a trace of its own under
/// `fresh_trace_id`, sampled and without trace state. The span id is always
/// the fresh one, and a span made here is never remote.
pub open spec fn child_span_context(
    parent: SpanContextView,
    fresh_trace_id: Seq<u8>,
    fresh_span_id: Seq<u8>,
) -> SpanContextView {
    if parent.is_valid() {
        SpanContextView {
            trace_id: parent.trace_id,
            span_id: fresh_span_id,
            trace_flags: parent.trace_flags,
            is_remote: false,
            trace_state: parent.trace_state,
        }
    } else {
        SpanContextView {
            trace_id: fresh_trace_id,
            span_id: fresh_span_id,
            trace_flags: TraceFlags { bits: 1 },
            is_remote: false,
            trace_state: Seq::empty(),
        }
    }
}

/// The span that a span made under `parent` names as its predecessor: the
/// span context that `parent` carries, or none where `parent` is empty.
pub open spec fn predecessor(parent: ContextView) -> Option<SpanContextView> {
    if parent is Empty {
        None
    } else {
        Some(parent.span_context())
    }
}

/// The span that `new_span` makes.
pub open spec fn new_span_view(
    name: Seq<char>,
    kind: SpanKind,
    attributes: Seq<crate::keyvalue::KeyValueView>,
    parent: ContextView,
    fresh_trace_id: Seq<u8>,
    fresh_span_id: Seq<u8>,
    now: u64,
) -> SpanView {
    SpanView {
        context: child_span_context(parent.span_context(), fresh_trace_id, fresh_span_id),
        parent: predecessor(parent),
        name,
        kind,
        attributes,
        events: Seq::empty(),
        status: StatusView::Unset,
        start_time: now,
        end_time: None,
    }
}

/// `RandomIdGenerator::new_trace_id` of the OpenTelemetry SDK: sixteen bytes
/// from the thread's random number generator. Nothing is claimed of them; any
/// sixteen bytes may come back.
#[verifier::external_body]
fn random_trace_id() -> TraceId {
    TraceId { bytes: RandomIdGenerator::default().new_trace_id().to_bytes() }
}

/// `RandomIdGenerator::new_span_id` of the OpenTelemetry SDK: eight bytes
/// from the thread's random number generator. Nothing is claimed of them; any
/// eight bytes may come back.
#[verifier::external_body]
fn random_span_id() -> SpanId {
    SpanId { bytes: RandomIdGenerator::default().new_span_id().to_bytes() }
}

/// Makes a span under `parent` with ids drawn at random, and returns the
/// context that carries it. `parent` is only read. Whatever ids were drawn,
/// the span is the one that `new_span_with_ids` makes from them: under a
/// valid parent it is in the parent's trace.
pub fn new_span(
    name: &str,
    kind: SpanKind,
    attributes: &[KeyValue],
    parent: &Context,
    now: u64,
) -> (context: Context)
    ensures
        context@ == ContextView::Local(
            new_span_view(
                name@,
                kind,
                attributes_view(attributes@),
                parent@,
                context@.span_context().trace_id,
                context@.span_context().span_id,
                now,
            ),
        ),
{
    let fresh_trace_id = random_trace_id();
    let fresh_span_id = random_span_id();
    new_span_with_ids(name, kind, attributes, parent, fresh_trace_id, fresh_span_id, now)
}

/// Makes a span under `parent` and returns the context that carries it.
/// `parent` is only read. The two ids are the caller's fresh ones: the span id
/// is always used, the trace id only where `parent` holds no valid span
/// context. `now` becomes the start time.
pub fn new_span_with_ids(
    name: &str,
    kind: SpanKind,
    attributes: &[KeyValue],
    parent: &Context,
    fresh_trace_id: TraceId,
    fresh_span_id: SpanId,
    now: u64,
) -> (context: Context)
    ensures
        context@ == ContextView::Local(
            new_span_view(
                name@,
                kind,
                attributes_view(attributes@),
                parent@,
                fresh_trace_id@,
                fresh_span_id@,
                now,
            ),
        ),
{
    let parent_context = parent.span_context();
    let predecessor = if parent.has_active_span() {
        Some(parent_context.clone())
    } else {
        None
    };
    let span_context = if parent_context.is_valid() {
        SpanContext::new(
            parent_context.trace_id(),
            fresh_span_id,
            parent_context.trace_flags(),
            false,
            parent_context.trace_state().clone(),
        )
    } else {
        SpanContext::new(
            fresh_trace_id,
            fresh_span_id,
            TraceFlags::sampled(),
            false,
            TraceState::new(),
        )
    };
    Context::with_span(Span::start(span_context, predecessor, name, kind, attributes, now))
}

/// Adds an event to the span of the current context. Where the current
/// context holds no span of this process, or its span has ended, nothing
/// happens.
pub fn new_event(stack: &mut ContextStack, name: &str, attributes: &[KeyValue], now: u64)
    ensures
        final(stack)@ == old(stack)@.with_current(
            old(stack)@.current().add_event(
                EventView { name: name@, timestamp: now, attributes: attributes_view(attributes@) },
            ),
        ),
{
    stack.add_event(name, attributes, now);
}

/// Adds an event to the span of the current context and sets that span's
/// status to an error that carries `description`. An error already recorded
/// stays: the first one wins.
pub fn new_error_event(
    stack: &mut ContextStack,
    name: &str,
    description: &str,
    attributes: &[KeyValue],
    now: u64,
)
    ensures
        final(stack)@ == old(stack)@.with_current(
            old(stack)@.current().add_event(
                EventView { name: name@, timestamp: now, attributes: attributes_view(attributes@) },
            ).set_status(StatusView::Error { description: description@ }),
        ),
{
    stack.add_event(name, attributes, now);
    stack.set_status(Status::error(description));
    proof {
        let first = old(stack)@.current().add_event(
            EventView { name: name@, timestamp: now, attributes: attributes_view(attributes@) },
        );
        let second = first.set_status(StatusView::Error { description: description@ });
        assert(old(stack)@.with_current(first).current() == first);
        assert(old(stack)@.with_current(first).with_current(second).attached =~= old(
            stack,
        )@.with_current(second).attached);
    }
}

/// Parent inheritance: a span made under a parent with a valid span context
/// shares the parent's trace id, and its span id is the fresh one, so it
/// differs from the parent's whenever the fresh id does.
pub proof fn lemma_child_inherits_trace(
    parent: SpanContext,
    fresh_trace_id: TraceId,
    fresh_span_id: SpanId,
)
    requires
        parent@.is_valid(),
        fresh_span_id@ != parent@.span_id,
    ensures
        child_span_context(parent@, fresh_trace_id@, fresh_span_id@).trace_id == parent@.trace_id,
        child_span_context(parent@, fresh_trace_id@, fresh_span_id@).span_id != parent@.span_id,
        child_span_context(parent@, fresh_trace_id@, fresh_span_id@).span_id == fresh_span_id@,
        !child_span_context(parent@, fresh_trace_id@, fresh_span_id@).is_remote,
{
}

/// Without a valid parent a span opens its own trace under the fresh trace
/// id.
pub proof fn lemma_root_takes_fresh_trace(
    parent: SpanContext,
    fresh_trace_id: TraceId,
    fresh_span_id: SpanId,
)
    requires
        !parent@.is_valid(),
    ensures
        child_span_context(parent@, fresh_trace_id@, fresh_span_id@).trace_id == fresh_trace_id@,
        child_span_context(parent@, fresh_trace_id@, fresh_span_id@).span_id == fresh_span_id@,
{
}

} // verus!
