//! Span identity: trace id, span id, flags, and the span context that bundles
//! them.

use vstd::prelude::*;

verus! {

/// Whether at least one byte of `bytes` is non-zero.
pub open spec fn any_nonzero(bytes: Seq<u8>) -> bool {
    exists|i: int| 0 <= i < bytes.len() && bytes[i] != 0
}

/// `n` zero bytes.
pub open spec fn zeros(n: nat) -> Seq<u8> {
    Seq::new(n, |i: int| 0u8)
}

/// Scans `bytes` for a non-zero byte.
fn has_nonzero_byte(bytes: &[u8]) -> (found: bool)
    ensures
        found == any_nonzero(bytes@),
{
    let mut i: usize = 0;
    while i < bytes.len()
        invariant
            i <= bytes.len(),
            forall|j: int| 0 <= j < i ==> bytes@[j] == 0,
        decreases bytes.len() - i,
    {
        if bytes[i] != 0 {
            return true;
        }
        i += 1;
    }
    false
}

/// Sixteen bytes naming one whole trace.
#[derive(Clone, Copy, Debug, PartialEq, Eq, Hash)]
pub struct TraceId {
    pub bytes: [u8; 16],
}

impl View for TraceId {
    type V = Seq<u8>;

    open spec fn view(&self) -> Seq<u8> {
        self.bytes@
    }
}

impl TraceId {
    /// A trace id is valid when it is not all zero.
    pub open spec fn spec_is_valid(&self) -> bool {
        any_nonzero(self@)
    }

    /// The all-zero id, which names no trace.
    pub fn invalid() -> (id: TraceId)
        ensures
            id@ == zeros(16),
            !id.spec_is_valid(),
    {
        let id = TraceId { bytes: [0u8; 16] };
        assert(id@ =~= zeros(16));
        id
    }

    pub fn from_bytes(bytes: [u8; 16]) -> (id: TraceId)
        ensures
            id.bytes == bytes,
    {
        TraceId { bytes }
    }

    pub fn to_bytes(&self) -> (bytes: [u8; 16])
        ensures
            bytes == self.bytes,
    {
        self.bytes
    }

    #[verifier::when_used_as_spec(spec_is_valid)]
    pub fn is_valid(&self) -> (valid: bool)
        ensures
            valid == self.spec_is_valid(),
    {
        has_nonzero_byte(&self.bytes)
    }
}

/// Eight bytes naming one span within its trace.
#[derive(Clone, Copy, Debug, PartialEq, Eq, Hash)]
pub struct SpanId {
    pub bytes: [u8; 8],
}

impl View for SpanId {
    type V = Seq<u8>;

    open spec fn view(&self) -> Seq<u8> {
        self.bytes@
    }
}

impl SpanId {
    /// A span id is valid when it is not all zero.
    pub open spec fn spec_is_valid(&self) -> bool {
        any_nonzero(self@)
    }

    /// The all-zero id, which names no span.
    pub fn invalid() -> (id: SpanId)
        ensures
            id@ == zeros(8),
            !id.spec_is_valid(),
    {
        let id = SpanId { bytes: [0u8; 8] };
        assert(id@ =~= zeros(8));
        id
    }

    pub fn from_bytes(bytes: [u8; 8]) -> (id: SpanId)
        ensures
            id.bytes == bytes,
    {
        SpanId { bytes }
    }

    pub fn to_bytes(&self) -> (bytes: [u8; 8])
        ensures
            bytes == self.bytes,
    {
        self.bytes
    }

    #[verifier::when_used_as_spec(spec_is_valid)]
    pub fn is_valid(&self) -> (valid: bool)
        ensures
            valid == self.spec_is_valid(),
    {
        has_nonzero_byte(&self.bytes)
    }
}

/// One byte of flags. Bit 0 says that the trace is sampled; the other bits
/// have no meaning here and are carried unchanged.
#[derive(Clone, Copy, Debug, PartialEq, Eq, Hash)]
pub struct TraceFlags {
    pub bits: u8,
}

impl TraceFlags {
    /// Whether bit 0 is set.
    pub open spec fn spec_is_sampled(&self) -> bool {
        self.bits % 2 == 1
    }

    pub fn new(bits: u8) -> (flags: TraceFlags)
        ensures
            flags.bits == bits,
    {
        TraceFlags { bits }
    }

    /// The flags with only the sampled bit set.
    pub fn sampled() -> (flags: TraceFlags)
        ensures
            flags.bits == 1,
            flags.spec_is_sampled(),
    {
        TraceFlags { bits: 1 }
    }

    pub fn to_u8(&self) -> (bits: u8)
        ensures
            bits == self.bits,
    {
        self.bits
    }

    #[verifier::when_used_as_spec(spec_is_sampled)]
    pub fn is_sampled(&self) -> (sampled: bool)
        ensures
            sampled == self.spec_is_sampled(),
    {
        self.bits % 2 == 1
    }
}

/// Vendor state that travels with a span context: key-value pairs in the
/// order in which they were given. This library never looks inside.
#[derive(Debug, PartialEq, Eq)]
pub struct TraceState {
    pub entries: Vec<(String, String)>,
}

impl View for TraceState {
    type V = Seq<(Seq<char>, Seq<char>)>;

    open spec fn view(&self) -> Seq<(Seq<char>, Seq<char>)> {
        Seq::new(self.entries@.len(), |i: int| (self.entries@[i].0@, self.entries@[i].1@))
    }
}

impl TraceState {
    /// The empty trace state.
    pub fn new() -> (state: TraceState)
        ensures
            state@ == Seq::<(Seq<char>, Seq<char>)>::empty(),
    {
        let state = TraceState { entries: Vec::new() };
        assert(state@ =~= Seq::<(Seq<char>, Seq<char>)>::empty());
        state
    }

    pub fn is_empty(&self) -> (empty: bool)
        ensures
            empty == (self@.len() == 0),
    {
        self.entries.len() == 0
    }
}

impl Clone for TraceState {
    fn clone(&self) -> (copy: TraceState)
        ensures
            copy@ == self@,
    {
        let mut entries: Vec<(String, String)> = Vec::new();
        let mut i: usize = 0;
        while i < self.entries.len()
            invariant
                i <= self.entries.len(),
                entries@.len() == i,
                forall|j: int|
                    0 <= j < i ==> (#[trigger] entries@[j]).0@ == self.entries@[j].0@
                        && entries@[j].1@ == self.entries@[j].1@,
            decreases self.entries.len() - i,
        {
            let key = self.entries[i].0.clone();
            let value = self.entries[i].1.clone();
            entries.push((key, value));
            i += 1;
        }
        let copy = TraceState { entries };
        assert(copy@ =~= self@);
        copy
    }
}

/// What a span context is, as a plain value.
pub struct SpanContextView {
    pub trace_id: Seq<u8>,
    pub span_id: Seq<u8>,
    pub trace_flags: TraceFlags,
    pub is_remote: bool,
    pub trace_state: Seq<(Seq<char>, Seq<char>)>,
}

impl SpanContextView {
    /// A span context can be used for tracing when both of its ids are valid.
    pub open spec fn is_valid(self) -> bool {
        any_nonzero(self.trace_id) && any_nonzero(self.span_id)
    }

    /// The same span context, marked as rebuilt from the wire.
    pub open spec fn as_remote(self) -> SpanContextView {
        SpanContextView { is_remote: true, ..self }
    }
}

/// The view of an optional span context.
pub open spec fn view_of(context: Option<SpanContext>) -> Option<SpanContextView> {
    match context {
        Some(c) => Some(c@),
        None => None,
    }
}

/// The identity of a span: which trace it belongs to, which span it is, its
/// flags, and whether it was rebuilt from an inbound header.
#[derive(Debug, PartialEq, Eq)]
pub struct SpanContext {
    pub trace_id: TraceId,
    pub span_id: SpanId,
    pub trace_flags: TraceFlags,
    pub is_remote: bool,
    pub trace_state: TraceState,
}

impl View for SpanContext {
    type V = SpanContextView;

    open spec fn view(&self) -> SpanContextView {
        SpanContextView {
            trace_id: self.trace_id@,
            span_id: self.span_id@,
            trace_flags: self.trace_flags,
            is_remote: self.is_remote,
            trace_state: self.trace_state@,
        }
    }
}

impl SpanContext {
    pub fn new(
        trace_id: TraceId,
        span_id: SpanId,
        trace_flags: TraceFlags,
        is_remote: bool,
        trace_state: TraceState,
    ) -> (context: SpanContext)
        ensures
            context@ == (SpanContextView {
                trace_id: trace_id@,
                span_id: span_id@,
                trace_flags,
                is_remote,
                trace_state: trace_state@,
            }),
    {
        SpanContext { trace_id, span_id, trace_flags, is_remote, trace_state }
    }

    /// The span context of no span: both ids zero, no flags, local, no state.
    pub open spec fn empty_view() -> SpanContextView {
        SpanContextView {
            trace_id: zeros(16),
            span_id: zeros(8),
            trace_flags: TraceFlags { bits: 0 },
            is_remote: false,
            trace_state: Seq::empty(),
        }
    }

    /// The span context of no span.
    pub fn empty() -> (context: SpanContext)
        ensures
            context@ == Self::empty_view(),
            !context@.is_valid(),
    {
        SpanContext {
            trace_id: TraceId::invalid(),
            span_id: SpanId::invalid(),
            trace_flags: TraceFlags { bits: 0 },
            is_remote: false,
            trace_state: TraceState::new(),
        }
    }

    pub fn trace_id(&self) -> (id: TraceId)
        ensures
            id@ == self@.trace_id,
    {
        self.trace_id
    }

    pub fn span_id(&self) -> (id: SpanId)
        ensures
            id@ == self@.span_id,
    {
        self.span_id
    }

    pub fn trace_flags(&self) -> (flags: TraceFlags)
        ensures
            flags == self@.trace_flags,
    {
        self.trace_flags
    }

    pub fn is_remote(&self) -> (remote: bool)
        ensures
            remote == self@.is_remote,
    {
        self.is_remote
    }

    pub fn is_sampled(&self) -> (sampled: bool)
        ensures
            sampled == self@.trace_flags.spec_is_sampled(),
    {
        self.trace_flags.is_sampled()
    }

    pub fn trace_state(&self) -> (state: &TraceState)
        ensures
            state@ == self@.trace_state,
    {
        &self.trace_state
    }

    /// Whether both ids are valid.
    pub fn is_valid(&self) -> (valid: bool)
        ensures
            valid == self@.is_valid(),
    {
        self.trace_id.is_valid() && self.span_id.is_valid()
    }
}

impl Clone for SpanContext {
    fn clone(&self) -> (copy: SpanContext)
        ensures
            copy@ == self@,
    {
        SpanContext {
            trace_id: self.trace_id,
            span_id: self.span_id,
            trace_flags: self.trace_flags,
            is_remote: self.is_remote,
            trace_state: self.trace_state.clone(),
        }
    }
}

} // verus!
