use http::{HeaderMap, HeaderValue};
use otex::hex::{encode, hex_to_bytes};
use otex::propagation::{
    decode_traceparent, extract_context_from_headers, format_traceparent,
    inject_context_to_headers, inject_context_to_headers_with_context, parse_traceparent,
};
use otex::{
    new_span_with_ids, Context, ContextStack, SpanContext, SpanId, SpanKind, TraceFlags, TraceId,
    TraceState,
};

const SAMPLE: &str = "00-0af7651916cd43dd8448eb211c80319c-b7ad6b7169203331-01";

const SAMPLE_TRACE_ID: [u8; 16] = [
    0x0a, 0xf7, 0x65, 0x19, 0x16, 0xcd, 0x43, 0xdd, 0x84, 0x48, 0xeb, 0x21, 0x1c, 0x80, 0x31, 0x9c,
];

const SAMPLE_SPAN_ID: [u8; 8] = [0xb7, 0xad, 0x6b, 0x71, 0x69, 0x20, 0x33, 0x31];

fn local(trace_id: [u8; 16], span_id: [u8; 8], flags: u8) -> SpanContext {
    SpanContext::new(
        TraceId::from_bytes(trace_id),
        SpanId::from_bytes(span_id),
        TraceFlags::new(flags),
        false,
        TraceState::new(),
    )
}

#[test]
fn test_parse_valid_traceparent() {
    let traceparent = "00-0af7651916cd43dd8448eb211c80319c-b7ad6b7169203331-01";
    let span_context = parse_traceparent(traceparent).unwrap();

    assert!(span_context.is_valid());
    assert!(span_context.is_remote());
    assert_eq!(span_context.trace_flags(), TraceFlags::sampled());
}

#[test]
fn test_parse_invalid_traceparent() {
    // Wrong version
    assert!(parse_traceparent("01-0af7651916cd43dd8448eb211c80319c-b7ad6b7169203331-01").is_none());

    // Wrong format
    assert!(parse_traceparent("invalid").is_none());

    // Missing parts
    assert!(parse_traceparent("00-0af7651916cd43dd8448eb211c80319c-b7ad6b7169203331").is_none());
}

#[test]
fn test_extract_no_header() {
    let headers = HeaderMap::new();
    let context = extract_context_from_headers(&headers);
    // Should return empty context (no span)
    assert!(!context.span_context().is_valid());
    assert_eq!(context, Context::Empty);
}

#[test]
fn test_extract_valid_header() {
    let mut headers = HeaderMap::new();
    headers.insert(
        "traceparent",
        "00-0af7651916cd43dd8448eb211c80319c-b7ad6b7169203331-01".parse().unwrap(),
    );

    let context = extract_context_from_headers(&headers);
    let span_context = context.span_context();

    assert!(span_context.is_valid());
    assert!(span_context.is_remote());
}

#[test]
fn test_roundtrip() {
    // Parse a traceparent
    let original = "00-0af7651916cd43dd8448eb211c80319c-b7ad6b7169203331-01";
    let span_context = parse_traceparent(original).unwrap();

    // Format it back
    let formatted = format_traceparent(&span_context);

    assert_eq!(original, formatted);
}

#[test]
fn decode_gives_the_fields_of_the_sample() {
    let span_context = parse_traceparent(SAMPLE).unwrap();
    assert_eq!(span_context.trace_id().to_bytes(), SAMPLE_TRACE_ID);
    assert_eq!(span_context.span_id().to_bytes(), SAMPLE_SPAN_ID);
    assert_eq!(span_context.trace_flags().to_u8(), 0x01);
    assert!(span_context.is_sampled());
    assert!(span_context.is_remote());
    assert!(span_context.trace_state().is_empty());
}

#[test]
fn decode_refuses_another_version() {
    assert!(parse_traceparent("01-0af7651916cd43dd8448eb211c80319c-b7ad6b7169203331-01").is_none());
    assert!(parse_traceparent("ff-0af7651916cd43dd8448eb211c80319c-b7ad6b7169203331-01").is_none());
    assert!(parse_traceparent("0-0af7651916cd43dd8448eb211c80319c-b7ad6b7169203331-01").is_none());
}

#[test]
fn decode_refuses_other_hyphen_counts() {
    assert!(parse_traceparent("").is_none());
    assert!(parse_traceparent("00").is_none());
    assert!(parse_traceparent("00-0af7651916cd43dd8448eb211c80319c").is_none());
    assert!(parse_traceparent("00-0af7651916cd43dd8448eb211c80319c-b7ad6b7169203331-01-").is_none());
    assert!(parse_traceparent("00-0af7651916cd43dd8448eb211c80319c-b7ad6b71-69203331-01").is_none());
    assert!(parse_traceparent("00-0af7651916cd43dd8448eb211c80319c_b7ad6b7169203331-01").is_none());
}

#[test]
fn decode_refuses_wrong_lengths() {
    // trace id of 31 and of 33 digits
    assert!(parse_traceparent("00-0af7651916cd43dd8448eb211c80319-b7ad6b7169203331-01").is_none());
    assert!(parse_traceparent("00-0af7651916cd43dd8448eb211c80319c0-b7ad6b7169203331-01").is_none());
    // span id of 15 digits
    assert!(parse_traceparent("00-0af7651916cd43dd8448eb211c80319c-b7ad6b716920333-01").is_none());
    // flags of 1 and of 3 digits
    assert!(parse_traceparent("00-0af7651916cd43dd8448eb211c80319c-b7ad6b7169203331-1").is_none());
    assert!(parse_traceparent("00-0af7651916cd43dd8448eb211c80319c-b7ad6b7169203331-001").is_none());
}

#[test]
fn decode_refuses_other_characters() {
    assert!(parse_traceparent("00-0af7651916cd43dd8448eb211c80319g-b7ad6b7169203331-01").is_none());
    assert!(parse_traceparent("00-0af7651916cd43dd8448eb211c80319c-b7ad6b716920333z-01").is_none());
    assert!(parse_traceparent("00-0af7651916cd43dd8448eb211c80319c-b7ad6b7169203331-0x").is_none());
    // a sign is no digit
    assert!(parse_traceparent("00-0af7651916cd43dd8448eb211c80319c-b7ad6b7169203331-+1").is_none());
    assert!(parse_traceparent("00-+af7651916cd43dd8448eb211c80319c-b7ad6b7169203331-01").is_none());
    // text that is not ASCII, also where a character straddles two digits' places
    assert!(parse_traceparent("00-0af7651916cd43dd8448eb211c8031é-b7ad6b7169203331-01").is_none());
    assert!(parse_traceparent("00-é0af7651916cd43dd8448eb211c803-b7ad6b7169203331-01").is_none());
    assert!(decode_traceparent(&[0xff; 55]).is_none());
}

#[test]
fn decode_takes_upper_case_digits() {
    let span_context =
        parse_traceparent("00-0AF7651916CD43DD8448EB211C80319C-B7AD6B7169203331-01").unwrap();
    assert_eq!(span_context.trace_id().to_bytes(), SAMPLE_TRACE_ID);
    assert_eq!(span_context.span_id().to_bytes(), SAMPLE_SPAN_ID);
    // and writes lower case
    assert_eq!(format_traceparent(&span_context), SAMPLE);
}

#[test]
fn decode_takes_zero_ids_as_shaped_but_invalid() {
    let span_context =
        parse_traceparent("00-00000000000000000000000000000000-0000000000000000-00").unwrap();
    assert!(!span_context.is_valid());
    assert!(span_context.is_remote());
    let zero_span =
        parse_traceparent("00-0af7651916cd43dd8448eb211c80319c-0000000000000000-01").unwrap();
    assert!(!zero_span.is_valid());
    let zero_trace =
        parse_traceparent("00-00000000000000000000000000000000-b7ad6b7169203331-01").unwrap();
    assert!(!zero_trace.is_valid());
}

#[test]
fn encode_writes_fixed_width_lower_case() {
    let span_context = local([0; 16], [0; 8], 0);
    assert_eq!(
        format_traceparent(&span_context),
        "00-00000000000000000000000000000000-0000000000000000-00"
    );
    let span_context = local([0xAB; 16], [0x0F; 8], 0xFF);
    assert_eq!(
        format_traceparent(&span_context),
        "00-abababababababababababababababab-0f0f0f0f0f0f0f0f-ff"
    );
    assert_eq!(format_traceparent(&local(SAMPLE_TRACE_ID, SAMPLE_SPAN_ID, 1)), SAMPLE);
}

#[test]
fn decode_inverts_encode_but_for_the_remote_mark() {
    for flags in [0u8, 1, 2, 0x80, 0xfe, 0xff] {
        let original = local(SAMPLE_TRACE_ID, [flags, 1, 2, 3, 4, 5, 6, 7], flags);
        let decoded = parse_traceparent(&format_traceparent(&original)).unwrap();
        assert_eq!(decoded.trace_id(), original.trace_id());
        assert_eq!(decoded.span_id(), original.span_id());
        assert_eq!(decoded.trace_flags(), original.trace_flags());
        assert!(decoded.trace_state().is_empty());
        assert!(!original.is_remote());
        assert!(decoded.is_remote());
    }
}

#[test]
fn hex_encode_and_decode() {
    assert_eq!(encode(&[]), "");
    assert_eq!(encode(&[0x00, 0x0f, 0xf0, 0xff, 0x9a]), "000ff0ff9a");
    assert_eq!(hex_to_bytes::<5>("000ff0ff9a"), Some([0x00, 0x0f, 0xf0, 0xff, 0x9a]));
    assert_eq!(hex_to_bytes::<2>("AbCd"), Some([0xab, 0xcd]));
    assert_eq!(hex_to_bytes::<0>(""), Some([]));
    assert_eq!(hex_to_bytes::<2>("abc"), None);
    assert_eq!(hex_to_bytes::<2>("abcde"), None);
    assert_eq!(hex_to_bytes::<2>("abcg"), None);
    assert_eq!(hex_to_bytes::<1>("+f"), None);
    assert_eq!(hex_to_bytes::<1>("é"), None);
}

#[test]
fn extract_ignores_a_header_that_does_not_decode() {
    let mut headers = HeaderMap::new();
    headers.insert("traceparent", HeaderValue::from_static("garbage"));
    assert_eq!(extract_context_from_headers(&headers), Context::Empty);

    let mut headers = HeaderMap::new();
    headers.insert("traceparent", HeaderValue::from_bytes(&[0x80, 0x81]).unwrap());
    assert_eq!(extract_context_from_headers(&headers), Context::Empty);

    let mut headers = HeaderMap::new();
    headers.insert(
        "traceparent",
        HeaderValue::from_static("01-0af7651916cd43dd8448eb211c80319c-b7ad6b7169203331-01"),
    );
    assert!(!extract_context_from_headers(&headers).span_context().is_valid());
}

#[test]
fn extract_finds_the_header_under_any_case_and_reads_the_first_value() {
    let mut headers = HeaderMap::new();
    headers.insert(
        http::header::HeaderName::from_bytes(b"TraceParent").unwrap(),
        HeaderValue::from_static(SAMPLE),
    );
    headers.append("traceparent", HeaderValue::from_static("garbage"));
    headers.insert("other", HeaderValue::from_static("value"));
    let context = extract_context_from_headers(&headers);
    let span_context = context.span_context();
    assert_eq!(span_context.trace_id().to_bytes(), SAMPLE_TRACE_ID);
    assert_eq!(span_context.span_id().to_bytes(), SAMPLE_SPAN_ID);
    assert!(span_context.is_remote());
    assert!(matches!(context, Context::Remote(_)));
}

#[test]
fn inject_leaves_headers_alone_without_a_valid_span() {
    let mut headers = HeaderMap::new();
    headers.insert("accept", HeaderValue::from_static("text/plain"));
    let before = headers.clone();

    assert!(!inject_context_to_headers_with_context(&mut headers, &Context::new()));
    assert_eq!(headers, before);
    assert!(!headers.contains_key("traceparent"));

    let invalid = Context::with_remote_span_context(local([0; 16], SAMPLE_SPAN_ID, 1));
    assert!(!inject_context_to_headers_with_context(&mut headers, &invalid));
    assert_eq!(headers, before);

    let stack = ContextStack::new();
    assert!(!inject_context_to_headers(&mut headers, &stack));
    assert_eq!(headers, before);
    assert_eq!(headers.len(), 1);
}

#[test]
fn inject_writes_the_header_and_replaces_what_was_there() {
    let mut headers = HeaderMap::new();
    headers.insert("accept", HeaderValue::from_static("text/plain"));
    headers.insert("traceparent", HeaderValue::from_static("stale"));
    headers.append("traceparent", HeaderValue::from_static("staler"));

    let context = Context::with_remote_span_context(local(SAMPLE_TRACE_ID, SAMPLE_SPAN_ID, 1));
    assert!(inject_context_to_headers_with_context(&mut headers, &context));

    let values: Vec<&HeaderValue> = headers.get_all("traceparent").iter().collect();
    assert_eq!(values, [&HeaderValue::from_static(SAMPLE)]);
    assert_eq!(headers.get("accept").unwrap(), "text/plain");
    assert_eq!(headers.len(), 2);
}

#[test]
fn inject_uses_the_current_context() {
    let mut stack = ContextStack::new();
    let span = new_span_with_ids(
        "outbound",
        SpanKind::Client,
        &[],
        &Context::with_remote_span_context(local(SAMPLE_TRACE_ID, SAMPLE_SPAN_ID, 1)),
        TraceId::from_bytes([1; 16]),
        SpanId::from_bytes([2; 8]),
        10,
    );
    let _guard = stack.attach(span);
    let mut headers = HeaderMap::new();
    assert!(inject_context_to_headers(&mut headers, &stack));
    assert_eq!(
        headers.get("traceparent").unwrap(),
        "00-0af7651916cd43dd8448eb211c80319c-0202020202020202-01"
    );
}

#[test]
fn inject_then_extract_hands_the_span_context_over() {
    let original = local(SAMPLE_TRACE_ID, SAMPLE_SPAN_ID, 1);
    let mut headers = HeaderMap::new();
    assert!(inject_context_to_headers_with_context(
        &mut headers,
        &Context::with_remote_span_context(original.clone()),
    ));
    let received = extract_context_from_headers(&headers).span_context();
    assert_eq!(received.trace_id(), original.trace_id());
    assert_eq!(received.span_id(), original.span_id());
    assert_eq!(received.trace_flags(), original.trace_flags());
    assert!(received.is_remote());
}

fn map_with_names(count: usize) -> HeaderMap {
    let mut headers = HeaderMap::new();
    for i in 0..count {
        let name = http::header::HeaderName::from_bytes(format!("h{}", i).as_bytes()).unwrap();
        headers.try_insert(name, HeaderValue::from_static("v")).unwrap();
    }
    assert_eq!(headers.keys_len(), count);
    headers
}

#[test]
fn inject_succeeds_while_the_map_has_room() {
    let context = Context::with_remote_span_context(local(SAMPLE_TRACE_ID, SAMPLE_SPAN_ID, 1));
    for count in [0usize, 1, 7, 8, 1000, 6553] {
        let mut headers = map_with_names(count);
        assert!(inject_context_to_headers_with_context(&mut headers, &context));
        assert_eq!(headers.get("traceparent").unwrap(), SAMPLE);
        assert_eq!(headers.keys_len(), count + 1);
        assert_eq!(headers.get("h0").is_some(), count > 0);
    }
}

#[test]
fn inject_into_a_full_map_changes_nothing() {
    let context = Context::with_remote_span_context(local(SAMPLE_TRACE_ID, SAMPLE_SPAN_ID, 1));
    let mut headers = map_with_names(24576);
    let before = headers.clone();
    assert!(!inject_context_to_headers_with_context(&mut headers, &context));
    assert_eq!(headers, before);
    assert!(!headers.contains_key("traceparent"));
    assert_eq!(headers.len(), 24576);
}
