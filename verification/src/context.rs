//! Contexts, and the stack of attached contexts that says which one is
//! current.

use crate::keyvalue::{attributes_view, KeyValue};
use crate::span::{EventView, Span, SpanView, Status, StatusView};
use crate::span_context::{SpanContext, SpanContextView};
use vstd::prelude::*;

verus! {

/// What a context is, as a plain value.
pub enum ContextView {
    Empty,
    Remote(SpanContextView),
    Local(SpanView),
}

impl ContextView {
    /// The span context that a context carries; that of no span where it is
    /// empty.
    pub open spec fn span_context(self) -> SpanContextView {
        match self {
            ContextView::Empty => SpanContext::empty_view(),
            ContextView::Remote(context) => context,
            ContextView::Local(span) => span.context,
        }
    }

    /// The context after `event` was offered to its span. Only a span of
    /// this process takes events.
    pub open spec fn add_event(self, event: EventView) -> ContextView {
        match self {
            ContextView::Local(span) => ContextView::Local(span.add_event(event)),
            _ => self,
        }
    }

    /// The context after `status` was offered to its span.
    pub open spec fn set_status(self, status: StatusView) -> ContextView {
        match self {
            ContextView::Local(span) => ContextView::Local(span.set_status(status)),
            _ => self,
        }
    }

    /// The context after its span was told to end at `now`.
    pub open spec fn end_span(self, now: u64) -> ContextView {
        match self {
            ContextView::Local(span) => ContextView::Local(span.end(now)),
            _ => self,
        }
    }
}

/// A context holds no span, or the span context of a span in another process
/// that an inbound request named, or a span of this process.
#[derive(Debug, PartialEq, Eq)]
pub enum Context {
    Empty,
    Remote(SpanContext),
    Local(Span),
}

impl View for Context {
    type V = ContextView;

    open spec fn view(&self) -> ContextView {
        match self {
            Context::Empty => ContextView::Empty,
            Context::Remote(context) => ContextView::Remote(context@),
            Context::Local(span) => ContextView::Local(span@),
        }
    }
}

impl Context {
    /// The empty context.
    pub fn new() -> (context: Context)
        ensures
            context@ == ContextView::Empty,
    {
        Context::Empty
    }

    /// The context that carries `span_context` as the parent named by an
    /// inbound request.
    pub fn with_remote_span_context(span_context: SpanContext) -> (context: Context)
        ensures
            context@ == ContextView::Remote(span_context@),
    {
        Context::Remote(span_context)
    }

    /// The context that carries `span`.
    pub fn with_span(span: Span) -> (context: Context)
        ensures
            context@ == ContextView::Local(span@),
    {
        Context::Local(span)
    }

    /// Whether the context holds a span or names one.
    pub fn has_active_span(&self) -> (active: bool)
        ensures
            active == !(self@ is Empty),
    {
        match self {
            Context::Empty => false,
            _ => true,
        }
    }

    /// The span context that this context carries; that of no span, which is
    /// not valid, where the context is empty.
    pub fn span_context(&self) -> (span_context: SpanContext)
        ensures
            span_context@ == self@.span_context(),
    {
        match self {
            Context::Empty => SpanContext::empty(),
            Context::Remote(context) => context.clone(),
            Context::Local(span) => span.span_context().clone(),
        }
    }

    /// Offers an event to the span that the context carries. An empty
    /// context and one that names a remote span drop it.
    pub fn add_event(&mut self, name: &str, attributes: &[KeyValue], timestamp: u64)
        ensures
            final(self)@ == old(self)@.add_event(
                EventView { name: name@, timestamp, attributes: attributes_view(attributes@) },
            ),
    {
        match self {
            Context::Local(span) => {
                span.add_event(name, attributes, timestamp);
            },
            _ => {},
        }
    }

    /// Offers a status to the span that the context carries.
    pub fn set_status(&mut self, status: Status)
        ensures
            final(self)@ == old(self)@.set_status(status@),
    {
        match self {
            Context::Local(span) => {
                span.set_status(status);
            },
            _ => {},
        }
    }

    /// Ends the span that the context carries, if it carries one.
    pub fn end_span(&mut self, now: u64)
        ensures
            final(self)@ == old(self)@.end_span(now),
    {
        match self {
            Context::Local(span) => {
                span.end(now);
            },
            _ => {},
        }
    }

    /// The span of this process that the context carries, if it carries one.
    pub fn span(&self) -> (span: Option<&Span>)
        ensures
            match span {
                Some(s) => self@ == ContextView::Local(s@),
                None => !(self@ is Local),
            },
    {
        match self {
            Context::Local(span) => Some(span),
            _ => None,
        }
    }
}

/// The views of a list of contexts, in order.
pub open spec fn contexts_view(contexts: Seq<Context>) -> Seq<ContextView> {
    Seq::new(contexts.len(), |i: int| contexts[i]@)
}

/// What a context stack is, as a plain value: the context that is current
/// when nothing is attached, and the attached contexts, innermost last.
pub struct ContextStackView {
    pub base: ContextView,
    pub attached: Seq<ContextView>,
}

impl ContextStackView {
    /// The current context: the innermost attached one, or the base.
    pub open spec fn current(self) -> ContextView {
        if self.attached.len() > 0 {
            self.attached.last()
        } else {
            self.base
        }
    }

    /// The stack with `context` in the place of the current context.
    pub open spec fn with_current(self, context: ContextView) -> ContextStackView {
        if self.attached.len() > 0 {
            ContextStackView {
                attached: self.attached.update(self.attached.len() - 1, context),
                ..self
            }
        } else {
            ContextStackView { base: context, ..self }
        }
    }

    /// The stack after `context` was attached.
    pub open spec fn attach(self, context: ContextView) -> ContextStackView {
        ContextStackView { attached: self.attached.push(context), ..self }
    }

    /// The stack after the guard taken at `depth` was released: what was
    /// attached at that depth or deeper is gone. A guard whose context is no
    /// longer attached releases nothing.
    pub open spec fn release(self, depth: nat) -> ContextStackView {
        if depth < self.attached.len() {
            ContextStackView { attached: self.attached.take(depth as int), ..self }
        } else {
            self
        }
    }
}

/// The receipt for one `attach`. Releasing it restores the context that was
/// current before.
#[derive(Debug)]
pub struct Guard {
    depth: usize,
}

impl Guard {
    /// How many contexts were attached when this guard was taken.
    pub closed spec fn depth(&self) -> nat {
        self.depth as nat
    }
}

/// The current-context state of one execution unit, thread or task. Each unit
/// has its own; nothing is shared between them.
#[derive(Debug)]
pub struct ContextStack {
    base: Context,
    attached: Vec<Context>,
}

impl View for ContextStack {
    type V = ContextStackView;

    closed spec fn view(&self) -> ContextStackView {
        ContextStackView { base: self.base@, attached: contexts_view(self.attached@) }
    }
}

impl ContextStack {
    /// The state of a unit to which nothing was handed: its current context
    /// is empty.
    pub fn new() -> (stack: ContextStack)
        ensures
            stack@ == (ContextStackView { base: ContextView::Empty, attached: Seq::empty() }),
    {
        let stack = ContextStack { base: Context::Empty, attached: Vec::new() };
        assert(stack@.attached =~= Seq::empty());
        stack
    }

    /// The state of a unit of work to which `context` was handed: `context`
    /// is current whenever that unit runs and has nothing attached of its
    /// own, and no other unit sees it.
    pub fn with_context(context: Context) -> (stack: ContextStack)
        ensures
            stack@ == (ContextStackView { base: context@, attached: Seq::empty() }),
    {
        let stack = ContextStack { base: context, attached: Vec::new() };
        assert(stack@.attached =~= Seq::empty());
        stack
    }

    /// The current context.
    pub fn current(&self) -> (context: &Context)
        ensures
            context@ == self@.current(),
    {
        let n = self.attached.len();
        if n > 0 {
            &self.attached[n - 1]
        } else {
            &self.base
        }
    }

    /// Puts `context` in the place of the current context.
    fn replace_current(&mut self, context: Context) -> (previous: Context)
        ensures
            final(self)@ == old(self)@.with_current(context@),
            previous@ == old(self)@.current(),
    {
        if self.attached.len() > 0 {
            let previous = self.attached.pop().unwrap();
            self.attached.push(context);
            assert(contexts_view(self.attached@) =~= contexts_view(old(self).attached@).update(
                old(self).attached@.len() - 1,
                context@,
            ));
            previous
        } else {
            let mut context = context;
            std::mem::swap(&mut self.base, &mut context);
            context
        }
    }

    /// Offers an event to the span of the current context. Where the current
    /// context holds no span of this process, the event is dropped.
    pub fn add_event(&mut self, name: &str, attributes: &[KeyValue], timestamp: u64)
        ensures
            final(self)@ == old(self)@.with_current(
                old(self)@.current().add_event(
                    EventView { name: name@, timestamp, attributes: attributes_view(attributes@) },
                ),
            ),
    {
        let mut current = self.replace_current(Context::Empty);
        current.add_event(name, attributes, timestamp);
        self.replace_current(current);
        assert(final(self)@.attached =~= old(self)@.with_current(current@).attached);
    }

    /// Offers a status to the span of the current context.
    pub fn set_status(&mut self, status: Status)
        ensures
            final(self)@ == old(self)@.with_current(old(self)@.current().set_status(status@)),
    {
        let mut current = self.replace_current(Context::Empty);
        current.set_status(status);
        self.replace_current(current);
        assert(final(self)@.attached =~= old(self)@.with_current(current@).attached);
    }

    /// Ends the span of the current context.
    pub fn end_current_span(&mut self, now: u64)
        ensures
            final(self)@ == old(self)@.with_current(old(self)@.current().end_span(now)),
    {
        let mut current = self.replace_current(Context::Empty);
        current.end_span(now);
        self.replace_current(current);
        assert(final(self)@.attached =~= old(self)@.with_current(current@).attached);
    }

    /// How many contexts are attached.
    pub fn depth(&self) -> (depth: usize)
        ensures
            depth == self@.attached.len(),
    {
        self.attached.len()
    }

    /// Makes `context` current until the guard is released.
    pub fn attach(&mut self, context: Context) -> (guard: Guard)
        ensures
            final(self)@ == old(self)@.attach(context@),
            guard.depth() == old(self)@.attached.len(),
    {
        let depth = self.attached.len();
        self.attached.push(context);
        assert(contexts_view(self.attached@) =~= contexts_view(old(self).attached@).push(
            context@,
        ));
        Guard { depth }
    }

    /// Releases a guard: the context attached under it, and any attached
    /// after it and not yet released, leave the stack, so that the context
    /// which was current before that `attach` is current again. Returns the
    /// context that was attached under the guard.
    pub fn detach(&mut self, guard: Guard) -> (released: Option<Context>)
        ensures
            final(self)@ == old(self)@.release(guard.depth()),
            match released {
                Some(context) => guard.depth() < old(self)@.attached.len() && context@ == old(
                    self,
                )@.attached[guard.depth() as int],
                None => guard.depth() >= old(self)@.attached.len(),
            },
    {
        if guard.depth < self.attached.len() {
            self.attached.truncate(guard.depth + 1);
            let released = self.attached.pop();
            assert(contexts_view(self.attached@) =~= contexts_view(old(self).attached@).take(
                guard.depth as int,
            ));
            released
        } else {
            None
        }
    }
}

/// Scoping, at once: attach a context and release the guard, and the stack
/// is what it was, so the current context is the one from before.
pub proof fn lemma_attach_then_release(before: ContextStackView, context: ContextView)
    ensures
        before.attach(context).release(before.attached.len()) == before,
        before.attach(context).release(before.attached.len()).current() == before.current(),
{
    assert(before.attach(context).attached.take(before.attached.len() as int)
        =~= before.attached);
}

/// Scoping, with work in between: `before` is the stack when `attach` was
/// called, `during` the stack when the guard is released. As long as the work
/// in between left in place what was attached before, as attaching, releasing
/// inner guards and recording events do, the release gives back `before`, and
/// with it the context that was current. It does so too where inner contexts
/// are still attached, as after an early exit.
pub proof fn lemma_release_restores(before: ContextStackView, during: ContextStackView)
    requires
        during.base == before.base,
        during.attached.len() > before.attached.len(),
        during.attached.take(before.attached.len() as int) == before.attached,
    ensures
        during.release(before.attached.len()) == before,
        during.release(before.attached.len()).current() == before.current(),
{
}

} // verus!
