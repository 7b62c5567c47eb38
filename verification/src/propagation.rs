//! The W3C `traceparent` wire format: a span context as
//! `00-<32 hex digits>-<16 hex digits>-<2 hex digits>`.

use crate::context::{Context, ContextStack, ContextView};
use crate::headers::{
    first_header_value, has_room, header_values, is_header_value_byte, is_header_value_text,
    is_plain_header_name, try_insert_header,
};
use crate::hex::{all_hex, decode_at, encode, hex_bytes, is_hex_digit, lemma_unhex_hex, unhex};
use crate::span_context::{
    view_of, SpanContext, SpanContextView, SpanId, TraceFlags, TraceId, TraceState,
};
use vstd::prelude::*;
use vstd::string::*;
use vstd::utf8::*;

verus! {

/// The byte that separates the fields: `-`.
pub const HYPHEN: u8 = 0x2d;

/// The digit `0`, of which the only supported version is made.
pub const ZERO_DIGIT: u8 = 0x30;

/// The length of every well-formed header value.
pub const TRACEPARENT_LEN: usize = 55;

/// The wire form of a span context, as ASCII bytes: version `00`, then the
/// trace id, the span id and the flags in lower-case hexadecimal, separated by
/// hyphens. The remote mark and the trace state are not written.
pub open spec fn traceparent_bytes(context: SpanContextView) -> Seq<u8> {
    seq![ZERO_DIGIT, ZERO_DIGIT, HYPHEN] + hex_bytes(context.trace_id) + seq![HYPHEN] + hex_bytes(
        context.span_id,
    ) + seq![HYPHEN] + hex_bytes(seq![context.trace_flags.bits])
}

/// The wire form of a span context, as characters.
pub open spec fn traceparent_text(context: SpanContextView) -> Seq<char> {
    let bytes = traceparent_bytes(context);
    Seq::new(bytes.len(), |i: int| bytes[i] as char)
}

/// Whether `value` has the shape of a version-00 header value: 55 bytes, `00`,
/// and three hyphens that part 32, 16 and 2 hexadecimal digits.
pub open spec fn is_traceparent(value: Seq<u8>) -> bool {
    &&& value.len() == TRACEPARENT_LEN
    &&& value[0] == ZERO_DIGIT
    &&& value[1] == ZERO_DIGIT
    &&& value[2] == HYPHEN
    &&& all_hex(value.subrange(3, 35))
    &&& value[35] == HYPHEN
    &&& all_hex(value.subrange(36, 52))
    &&& value[52] == HYPHEN
    &&& all_hex(value.subrange(53, 55))
}

/// What a header value decodes to: the span context that its fields spell,
/// marked remote and with no trace state, or nothing where the value is not
/// well formed. All-zero ids decode like any others.
pub open spec fn decode_spec(value: Seq<u8>) -> Option<SpanContextView> {
    if is_traceparent(value) {
        Some(
            SpanContextView {
                trace_id: unhex(value.subrange(3, 35)),
                span_id: unhex(value.subrange(36, 52)),
                trace_flags: TraceFlags { bits: unhex(value.subrange(53, 55))[0] },
                is_remote: true,
                trace_state: Seq::empty(),
            },
        )
    } else {
        None
    }
}

/// Decodes the bytes of a `traceparent` header value.
pub fn decode_traceparent(value: &[u8]) -> (context: Option<SpanContext>)
    ensures
        view_of(context) == decode_spec(value@),
{
    if value.len() != TRACEPARENT_LEN {
        return None;
    }
    if value[0] != ZERO_DIGIT || value[1] != ZERO_DIGIT {
        return None;
    }
    if value[2] != HYPHEN || value[35] != HYPHEN || value[52] != HYPHEN {
        return None;
    }
    let trace_id = match decode_at::<16>(value, 3) {
        Some(bytes) => TraceId::from_bytes(bytes),
        None => {
            return None;
        },
    };
    let span_id = match decode_at::<8>(value, 36) {
        Some(bytes) => SpanId::from_bytes(bytes),
        None => {
            return None;
        },
    };
    let trace_flags = match decode_at::<1>(value, 53) {
        Some(bytes) => TraceFlags::new(bytes[0]),
        None => {
            return None;
        },
    };
    Some(SpanContext::new(trace_id, span_id, trace_flags, true, TraceState::new()))
}

/// Decodes a `traceparent` header value. Text that is not well formed gives
/// `None`, never an error.
pub fn parse_traceparent(value: &str) -> (context: Option<SpanContext>)
    ensures
        view_of(context) == decode_spec(value.spec_bytes()),
{
    decode_traceparent(value.as_bytes())
}

/// Formats a span context as a `traceparent` header value.
pub fn format_traceparent(span_context: &SpanContext) -> (text: String)
    ensures
        text@ == traceparent_text(span_context@),
{
    let trace_id = span_context.trace_id().to_bytes();
    let span_id = span_context.span_id().to_bytes();
    let flags = [span_context.trace_flags().to_u8()];
    let trace_hex = encode(&trace_id);
    let span_hex = encode(&span_id);
    let flags_hex = encode(&flags);
    proof {
        reveal_strlit("00-");
        reveal_strlit("-");
    }
    let mut text = String::from_str("00-");
    text.append(trace_hex.as_str());
    text.append("-");
    text.append(span_hex.as_str());
    text.append("-");
    text.append(flags_hex.as_str());
    proof {
        assert(flags@ =~= seq![span_context@.trace_flags.bits]);
        assert(text@ =~= traceparent_text(span_context@));
    }
    text
}

/// The name of the header that carries the span context.
pub open spec fn traceparent_name() -> Seq<char> {
    seq!['t', 'r', 'a', 'c', 'e', 'p', 'a', 'r', 'e', 'n', 't']
}

/// The header name as a string.
fn traceparent_header() -> (name: &'static str)
    ensures
        name@ == traceparent_name(),
        is_plain_header_name(name@),
{
    proof {
        reveal_strlit("traceparent");
    }
    let name = "traceparent";
    assert(name@ =~= traceparent_name());
    name
}

/// The context that a request with the headers `headers` hands over: the
/// remote parent that the first `traceparent` value decodes to, or the empty
/// context where the header is absent or does not decode.
pub open spec fn extracted(headers: Map<Seq<char>, Seq<Seq<u8>>>) -> ContextView {
    if headers.contains_key(traceparent_name()) {
        match decode_spec(headers[traceparent_name()][0]) {
            Some(span_context) => ContextView::Remote(span_context),
            None => ContextView::Empty,
        }
    } else {
        ContextView::Empty
    }
}

/// The headers after `span_context` was written to them: `traceparent` has
/// the wire form as its one value, the other headers are as they were.
pub open spec fn injected(
    headers: Map<Seq<char>, Seq<Seq<u8>>>,
    span_context: SpanContextView,
) -> Map<Seq<char>, Seq<Seq<u8>>> {
    headers.insert(traceparent_name(), seq![traceparent_bytes(span_context)])
}

/// The context that an incoming value of the header yields.
pub fn context_from_header(value: Option<Vec<u8>>) -> (context: Context)
    ensures
        context@ == match value {
            Some(bytes) => match decode_spec(bytes@) {
                Some(span_context) => ContextView::Remote(span_context),
                None => ContextView::Empty,
            },
            None => ContextView::Empty,
        },
{
    match value {
        Some(bytes) => match decode_traceparent(bytes.as_slice()) {
            Some(span_context) => Context::with_remote_span_context(span_context),
            None => Context::new(),
        },
        None => Context::new(),
    }
}

/// Reads the `traceparent` header. A header that is absent or not well
/// formed gives the empty context, so that the caller starts a trace of its
/// own; it is never an error.
pub fn extract_context_from_headers(headers: &http::HeaderMap<http::HeaderValue>) -> (context:
    Context)
    ensures
        context@ == extracted(header_values(*headers)),
{
    let value = first_header_value(headers, traceparent_header());
    context_from_header(value)
}

/// Writes the span context of `context` to the `traceparent` header, if it is
/// valid. Otherwise the headers are left as they are. Returns whether the
/// header was written. A valid span context is written whenever the map has
/// room; it is not written only where the map reports that it is full, and
/// then too the headers are as they were.
pub fn inject_context_to_headers_with_context(
    headers: &mut http::HeaderMap<http::HeaderValue>,
    context: &Context,
) -> (written: bool)
    ensures
        written ==> context@.span_context().is_valid(),
        context@.span_context().is_valid() && has_room(header_values(*old(headers))) ==> written,
        written ==> header_values(*final(headers)) == injected(
            header_values(*old(headers)),
            context@.span_context(),
        ),
        !written ==> header_values(*final(headers)) == header_values(*old(headers)),
{
    let span_context = context.span_context();
    if span_context.is_valid() {
        let text = format_traceparent(&span_context);
        proof {
            lemma_traceparent_text_bytes(span_context);
            lemma_traceparent_is_header_value(span_context);
        }
        try_insert_header(headers, traceparent_header(), text.as_str())
    } else {
        false
    }
}

/// Writes the span context of the current context of `stack` to the
/// `traceparent` header, if it is valid: whenever the map has room, and
/// never where the current context holds no valid span.
pub fn inject_context_to_headers(
    headers: &mut http::HeaderMap<http::HeaderValue>,
    stack: &ContextStack,
) -> (written: bool)
    ensures
        written ==> stack@.current().span_context().is_valid(),
        stack@.current().span_context().is_valid() && has_room(header_values(*old(headers)))
            ==> written,
        written ==> header_values(*final(headers)) == injected(
            header_values(*old(headers)),
            stack@.current().span_context(),
        ),
        !written ==> header_values(*final(headers)) == header_values(*old(headers)),
{
    inject_context_to_headers_with_context(headers, stack.current())
}

/// Absence: headers without `traceparent` give the empty context, whose span
/// context is not valid.
pub proof fn lemma_extract_absent(headers: Map<Seq<char>, Seq<Seq<u8>>>)
    requires
        !headers.contains_key(traceparent_name()),
    ensures
        extracted(headers) == ContextView::Empty,
        !extracted(headers).span_context().is_valid(),
{
}

/// Across the wire: headers into which a span context without trace state
/// was written give back a context that carries that span context, marked
/// remote.
pub proof fn lemma_extract_inverts_inject(
    headers: Map<Seq<char>, Seq<Seq<u8>>>,
    span_context: SpanContext,
)
    requires
        span_context@.trace_state.len() == 0,
    ensures
        extracted(injected(headers, span_context@)) == ContextView::Remote(
            span_context@.as_remote(),
        ),
{
    lemma_decode_inverts_encode(span_context);
}

/// How many hyphens `value` holds.
pub open spec fn hyphen_count(value: Seq<u8>) -> nat
    decreases value.len(),
{
    if value.len() == 0 {
        0
    } else {
        hyphen_count(value.drop_last()) + if value.last() == HYPHEN {
            1nat
        } else {
            0nat
        }
    }
}

/// Four fields joined by hyphens, as a header value is.
pub open spec fn join_fields(
    version: Seq<u8>,
    trace_id: Seq<u8>,
    span_id: Seq<u8>,
    flags: Seq<u8>,
) -> Seq<u8> {
    version + seq![HYPHEN] + trace_id + seq![HYPHEN] + span_id + seq![HYPHEN] + flags
}

/// The hyphens of a concatenation are those of its two parts.
pub proof fn lemma_hyphen_count_concat(a: Seq<u8>, b: Seq<u8>)
    ensures
        hyphen_count(a + b) == hyphen_count(a) + hyphen_count(b),
    decreases b.len(),
{
    if b.len() == 0 {
        assert(a + b =~= a);
    } else {
        lemma_hyphen_count_concat(a, b.drop_last());
        assert((a + b).drop_last() =~= a + b.drop_last());
    }
}

/// Hexadecimal digits hold no hyphen.
pub proof fn lemma_hyphen_count_hex(digits: Seq<u8>)
    requires
        all_hex(digits),
    ensures
        hyphen_count(digits) == 0,
    decreases digits.len(),
{
    if digits.len() > 0 {
        assert(is_hex_digit(digits[digits.len() - 1]));
        assert forall|i: int| 0 <= i < digits.drop_last().len() implies is_hex_digit(
            #[trigger] digits.drop_last()[i],
        ) by {
            assert(digits.drop_last()[i] == digits[i]);
        }
        lemma_hyphen_count_hex(digits.drop_last());
    }
}

/// A well-formed header value is its four fields joined by hyphens.
pub proof fn lemma_traceparent_fields(value: Seq<u8>)
    requires
        is_traceparent(value),
    ensures
        value == join_fields(
            seq![ZERO_DIGIT, ZERO_DIGIT],
            value.subrange(3, 35),
            value.subrange(36, 52),
            value.subrange(53, 55),
        ),
{
    assert(value =~= join_fields(
        seq![ZERO_DIGIT, ZERO_DIGIT],
        value.subrange(3, 35),
        value.subrange(36, 52),
        value.subrange(53, 55),
    ));
}

/// A header value whose first two bytes are not `00` decodes to nothing,
/// however well formed the rest is: no other version is read.
pub proof fn lemma_decode_rejects_other_version(value: Seq<u8>)
    requires
        value.len() < 2 || value[0] != ZERO_DIGIT || value[1] != ZERO_DIGIT,
    ensures
        decode_spec(value) is None,
{
}

/// A header value that does not hold exactly three hyphens decodes to
/// nothing.
pub proof fn lemma_decode_rejects_hyphen_count(value: Seq<u8>)
    requires
        hyphen_count(value) != 3,
    ensures
        decode_spec(value) is None,
{
    if is_traceparent(value) {
        let version = seq![ZERO_DIGIT, ZERO_DIGIT];
        let hyphen = seq![HYPHEN];
        let trace_id = value.subrange(3, 35);
        let span_id = value.subrange(36, 52);
        let flags = value.subrange(53, 55);
        lemma_traceparent_fields(value);
        assert(all_hex(version));
        lemma_hyphen_count_hex(version);
        lemma_hyphen_count_hex(trace_id);
        lemma_hyphen_count_hex(span_id);
        lemma_hyphen_count_hex(flags);
        assert(hyphen_count(hyphen) == 1) by {
            assert(hyphen.drop_last() =~= Seq::<u8>::empty());
            assert(hyphen_count(hyphen.drop_last()) == 0);
        }
        lemma_hyphen_count_concat(version, hyphen);
        lemma_hyphen_count_concat(version + hyphen, trace_id);
        lemma_hyphen_count_concat(version + hyphen + trace_id, hyphen);
        lemma_hyphen_count_concat(version + hyphen + trace_id + hyphen, span_id);
        lemma_hyphen_count_concat(version + hyphen + trace_id + hyphen + span_id, hyphen);
        lemma_hyphen_count_concat(
            version + hyphen + trace_id + hyphen + span_id + hyphen,
            flags,
        );
        assert(hyphen_count(value) == 3);
    }
}

/// A header value that holds a byte which is neither a hexadecimal digit nor
/// a hyphen decodes to nothing.
pub proof fn lemma_decode_rejects_foreign_byte(value: Seq<u8>, at: int)
    requires
        0 <= at < value.len(),
        !is_hex_digit(value[at]),
        value[at] != HYPHEN,
    ensures
        decode_spec(value) is None,
{
    if is_traceparent(value) {
        if 3 <= at < 35 {
            assert(value.subrange(3, 35)[at - 3] == value[at]);
        } else if 36 <= at < 52 {
            assert(value.subrange(36, 52)[at - 36] == value[at]);
        } else if 53 <= at < 55 {
            assert(value.subrange(53, 55)[at - 53] == value[at]);
        }
    }
}

/// Whether four fields are those of a version-00 header value: the version
/// is `00`, and the others are 32, 16 and 2 hexadecimal digits.
pub open spec fn fields_accepted(
    version: Seq<u8>,
    trace_id: Seq<u8>,
    span_id: Seq<u8>,
    flags: Seq<u8>,
) -> bool {
    &&& version == seq![ZERO_DIGIT, ZERO_DIGIT]
    &&& trace_id.len() == 32 && all_hex(trace_id)
    &&& span_id.len() == 16 && all_hex(span_id)
    &&& flags.len() == 2 && all_hex(flags)
}

/// Decoding, told by fields: four fields joined by hyphens decode to a span
/// context exactly when the version is `00` and the trace id, the span id and
/// the flags are 32, 16 and 2 hexadecimal digits; the span context is then the
/// one that the digits spell. So another version, a field of another length
/// and a field with another character in it are each refused.
pub proof fn lemma_decode_by_fields(
    version: Seq<u8>,
    trace_id: Seq<u8>,
    span_id: Seq<u8>,
    flags: Seq<u8>,
)
    ensures
        decode_spec(join_fields(version, trace_id, span_id, flags)) == if fields_accepted(
            version,
            trace_id,
            span_id,
            flags,
        ) {
            Some(
                SpanContextView {
                    trace_id: unhex(trace_id),
                    span_id: unhex(span_id),
                    trace_flags: TraceFlags { bits: unhex(flags)[0] },
                    is_remote: true,
                    trace_state: Seq::empty(),
                },
            )
        } else {
            None
        },
{
    let value = join_fields(version, trace_id, span_id, flags);
    let first = version.len() as int;
    let second = first + 1 + trace_id.len();
    let third = second + 1 + span_id.len();
    assert(value.len() == third + 1 + flags.len());
    assert(value[first] == HYPHEN);
    assert(value[second] == HYPHEN);
    assert(value[third] == HYPHEN);
    if is_traceparent(value) {
        // The three joining hyphens can only sit where a well-formed value
        // has its hyphens: every other place holds a digit.
        assert forall|i: int| 0 <= i < 55 && value[i] == HYPHEN implies i == 2 || i == 35 || i
            == 52 by {
            if 3 <= i < 35 {
                assert(is_hex_digit(value.subrange(3, 35)[i - 3]));
            } else if 36 <= i < 52 {
                assert(is_hex_digit(value.subrange(36, 52)[i - 36]));
            } else if 53 <= i < 55 {
                assert(is_hex_digit(value.subrange(53, 55)[i - 53]));
            }
        }
        assert(first == 2 && second == 35 && third == 52);
        assert(version =~= seq![ZERO_DIGIT, ZERO_DIGIT]);
        assert(value.subrange(3, 35) =~= trace_id);
        assert(value.subrange(36, 52) =~= span_id);
        assert(value.subrange(53, 55) =~= flags);
    } else if fields_accepted(version, trace_id, span_id, flags) {
        assert(value.subrange(3, 35) =~= trace_id);
        assert(value.subrange(36, 52) =~= span_id);
        assert(value.subrange(53, 55) =~= flags);
        assert(false);
    }
}

/// The wire form of a span context is a well-formed header value.
pub proof fn lemma_traceparent_bytes_fields(context: SpanContext)
    ensures
        traceparent_bytes(context@) == join_fields(
            seq![ZERO_DIGIT, ZERO_DIGIT],
            hex_bytes(context@.trace_id),
            hex_bytes(context@.span_id),
            hex_bytes(seq![context@.trace_flags.bits]),
        ),
        fields_accepted(
            seq![ZERO_DIGIT, ZERO_DIGIT],
            hex_bytes(context@.trace_id),
            hex_bytes(context@.span_id),
            hex_bytes(seq![context@.trace_flags.bits]),
        ),
        traceparent_bytes(context@).len() == TRACEPARENT_LEN,
{
    lemma_unhex_hex(context@.trace_id);
    lemma_unhex_hex(context@.span_id);
    lemma_unhex_hex(seq![context@.trace_flags.bits]);
    assert(traceparent_bytes(context@) =~= join_fields(
        seq![ZERO_DIGIT, ZERO_DIGIT],
        hex_bytes(context@.trace_id),
        hex_bytes(context@.span_id),
        hex_bytes(seq![context@.trace_flags.bits]),
    ));
}

/// Round trip on bytes: the wire form of a span context without trace state
/// decodes to that span context, marked remote. Nothing else changes: the
/// ids and every bit of the flags come back as they were.
pub proof fn lemma_decode_inverts_encode(context: SpanContext)
    requires
        context@.trace_state.len() == 0,
    ensures
        decode_spec(traceparent_bytes(context@)) == Some(context@.as_remote()),
{
    let trace_hex = hex_bytes(context@.trace_id);
    let span_hex = hex_bytes(context@.span_id);
    let flags_hex = hex_bytes(seq![context@.trace_flags.bits]);
    lemma_traceparent_bytes_fields(context);
    lemma_decode_by_fields(seq![ZERO_DIGIT, ZERO_DIGIT], trace_hex, span_hex, flags_hex);
    lemma_unhex_hex(context@.trace_id);
    lemma_unhex_hex(context@.span_id);
    lemma_unhex_hex(seq![context@.trace_flags.bits]);
    assert(context@.trace_state =~= Seq::empty());
}

/// The header text of a span context is ASCII, so its UTF-8 bytes are the
/// wire bytes.
pub proof fn lemma_traceparent_text_bytes(context: SpanContext)
    ensures
        encode_utf8(traceparent_text(context@)) == traceparent_bytes(context@),
{
    let bytes = traceparent_bytes(context@);
    let text = traceparent_text(context@);
    lemma_traceparent_bytes_fields(context);
    lemma_traceparent_fields_ascii(bytes);
    assert(is_ascii_chars(text));
    is_ascii_chars_encode_utf8(text);
    assert forall|i: int| 0 <= i < bytes.len() implies text[i] as u8 == bytes[i] by {
        assert(bytes[i] < 128);
    }
    assert(encode_utf8(text) =~= bytes);
}

/// Every byte of a well-formed header value is ASCII.
proof fn lemma_traceparent_fields_ascii(value: Seq<u8>)
    requires
        value.len() == TRACEPARENT_LEN,
        decode_spec(value) is Some,
    ensures
        forall|i: int| 0 <= i < value.len() ==> #[trigger] value[i] < 128,
{
    assert forall|i: int| 0 <= i < value.len() implies #[trigger] value[i] < 128 by {
        if 3 <= i < 35 {
            assert(is_hex_digit(value.subrange(3, 35)[i - 3]));
        } else if 36 <= i < 52 {
            assert(is_hex_digit(value.subrange(36, 52)[i - 36]));
        } else if 53 <= i < 55 {
            assert(is_hex_digit(value.subrange(53, 55)[i - 53]));
        }
    }
}

/// The header text of a span context can be a header value: it holds digits
/// and hyphens only.
pub proof fn lemma_traceparent_is_header_value(context: SpanContext)
    ensures
        is_header_value_text(traceparent_text(context@)),
{
    let bytes = traceparent_bytes(context@);
    lemma_traceparent_text_bytes(context);
    lemma_traceparent_bytes_fields(context);
    lemma_decode_by_fields(
        seq![ZERO_DIGIT, ZERO_DIGIT],
        hex_bytes(context@.trace_id),
        hex_bytes(context@.span_id),
        hex_bytes(seq![context@.trace_flags.bits]),
    );
    assert(is_traceparent(bytes));
    assert forall|i: int| 0 <= i < bytes.len() implies is_header_value_byte(
        #[trigger] bytes[i],
    ) by {
        if 3 <= i < 35 {
            assert(is_hex_digit(bytes.subrange(3, 35)[i - 3]));
        } else if 36 <= i < 52 {
            assert(is_hex_digit(bytes.subrange(36, 52)[i - 36]));
        } else if 53 <= i < 55 {
            assert(is_hex_digit(bytes.subrange(53, 55)[i - 53]));
        }
    }
}

/// Round trip on text: what `format_traceparent` writes for a span context
/// without trace state, `parse_traceparent` reads back as that span context,
/// marked remote.
pub proof fn lemma_parse_inverts_format(context: SpanContext)
    requires
        context@.trace_state.len() == 0,
    ensures
        decode_spec(encode_utf8(traceparent_text(context@))) == Some(context@.as_remote()),
{
    lemma_traceparent_text_bytes(context);
    lemma_decode_inverts_encode(context);
}

} // verus!
