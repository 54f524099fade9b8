use cnosdb::headers::Headers;
use cnosdb::jaeger::{JaegerCtx, SpanId, TraceId};
use cnosdb::trace_ctx::{
    format_jaeger_trace_context, ContextError, SpanContext, SpanContextExtractor, TraceHeaderParser,
    DEFAULT_TRACE_HEADER_NAME,
};

#[test]
fn test_decode_jaeger() {
    const TRACE_HEADER: &str = "uber-trace-id";

    let parser = TraceHeaderParser::new(false).with_jaeger_trace_context_header_name(TRACE_HEADER);

    let mut headers = Headers::new();

    // Invalid format
    headers.insert(TRACE_HEADER, b"invalid".to_vec());
    assert_eq!(
        parser.parse::<()>(None, &headers).unwrap_err().to_string(),
        "decoding header 'uber-trace-id': Expected \"trace-id:span-id:parent-span-id:flags\", found: invalid"
    );

    // Not sampled
    headers.insert(TRACE_HEADER, b"343:4325345:0:0".to_vec());
    let span = parser.parse::<()>(None, &headers).unwrap().unwrap();

    assert_eq!(span.trace_id.0, 0x343);
    assert_eq!(span.span_id.0, 0x4325345);
    assert!(span.parent_span_id.is_none());
    assert!(!span.sampled);

    // Sampled
    headers.insert(TRACE_HEADER, b"3a43:432e345:0:1".to_vec());
    let span = parser.parse::<()>(None, &headers).unwrap().unwrap();

    assert_eq!(span.trace_id.0, 0x3a43);
    assert_eq!(span.span_id.0, 0x432e345);
    assert!(span.parent_span_id.is_none());
    assert!(span.sampled);

    // Parent span
    headers.insert(TRACE_HEADER, b"343:4325345:3434:F".to_vec());
    let span = parser.parse::<()>(None, &headers).unwrap().unwrap();

    assert_eq!(span.trace_id.0, 0x343);
    assert_eq!(span.span_id.0, 0x4325345);
    assert_eq!(span.parent_span_id.unwrap().0, 0x3434);
    assert!(span.sampled);

    // Invalid trace id
    headers.insert(TRACE_HEADER, b"0:4325345:3434:1".to_vec());
    assert_eq!(
        parser.parse::<()>(None, &headers).unwrap_err().to_string(),
        "decoding header 'uber-trace-id': value cannot be 0"
    );

    headers.insert(
        TRACE_HEADER,
        b"008e813572f53b3a:008e813572f53b3a:0000000000000000:1".to_vec(),
    );

    let span = parser.parse::<()>(None, &headers).unwrap().unwrap();

    assert_eq!(span.trace_id.0, 0x008e813572f53b3a);
    assert_eq!(span.span_id.0, 0x008e813572f53b3a);
    assert!(span.parent_span_id.is_none());
    assert!(span.sampled);
}

#[test]
fn jaeger_value_errors_name_their_cause() {
    let e = JaegerCtx::from_str("1:2:3").unwrap_err();
    assert_eq!(
        e.to_string(),
        "Expected \"trace-id:span-id:parent-span-id:flags\", found: 1:2:3"
    );
    let e = JaegerCtx::from_str("1:x:3:1").unwrap_err();
    assert_eq!(e.to_string(), "value decode error: invalid digit found in string");
    let e = JaegerCtx::from_str("1::3:1").unwrap_err();
    assert_eq!(e.to_string(), "value decode error: cannot parse integer from empty string");
    let e = JaegerCtx::from_str("1:10000000000000000:3:1").unwrap_err();
    assert_eq!(e.to_string(), "value decode error: number too large to fit in target type");
    let e = JaegerCtx::from_str("1:1:3:100").unwrap_err();
    assert_eq!(e.to_string(), "value decode error: number too large to fit in target type");
    // A leading plus is accepted, a minus is not.
    let j = JaegerCtx::from_str("+ff:1:0:+1").unwrap();
    assert_eq!(j.trace_id, TraceId(0xff));
    assert_eq!(j.flags, 1);
    assert!(JaegerCtx::from_str("-ff:1:0:1").is_err());
    // A malformed parent is an error, a zero parent is no parent.
    assert!(JaegerCtx::from_str("1:1:zz:1").is_err());
    assert_eq!(JaegerCtx::from_str("1:1:00:1").unwrap().parent_span_id, None);
}

#[test]
fn missing_and_non_text_headers() {
    let parser = TraceHeaderParser::new(false);
    let headers = Headers::new();
    assert!(parser.parse::<()>(None, &headers).unwrap().is_none());

    let mut headers = Headers::new();
    headers.insert("Uber-Trace-Id", vec![0x33, 0x80]);
    let err = parser.parse::<()>(None, &headers).unwrap_err();
    assert!(matches!(err, ContextError::InvalidUtf8 { .. }));
    assert_eq!(
        err.to_string(),
        "header 'uber-trace-id' has non-UTF8 content: failed to convert header to a str"
    );

    let generating = TraceHeaderParser::new(true);
    let span = generating.parse(Some(7u8), &Headers::new()).unwrap().unwrap();
    assert!(span.trace_id.0 != 0 && span.span_id.0 != 0);
    assert!(span.sampled);
    assert!(span.parent_span_id.is_none());
    assert_eq!(span.collector, Some(7u8));

    assert!(TraceHeaderParser::default().parse::<()>(None, &headers).unwrap().is_none());
}

#[test]
fn format_then_parse_gives_the_context_back() {
    let ctx: SpanContext<()> = SpanContext {
        trace_id: TraceId(0x8e813572f53b3a),
        parent_span_id: Some(SpanId(0x10)),
        span_id: SpanId(0xabc),
        links: vec![],
        collector: None,
        sampled: false,
    };
    let text = format_jaeger_trace_context(&ctx);
    assert_eq!(text, "8e813572f53b3a:abc:10:0");
    let back = TraceHeaderParser::new(false)
        .parse_str::<()>(None, DEFAULT_TRACE_HEADER_NAME, Some(text))
        .unwrap()
        .unwrap();
    assert_eq!(back.trace_id, ctx.trace_id);
    assert_eq!(back.span_id, ctx.span_id);
    assert_eq!(back.parent_span_id, ctx.parent_span_id);
    assert_eq!(back.sampled, ctx.sampled);

    let root: SpanContext<()> = SpanContext {
        trace_id: TraceId(1),
        parent_span_id: None,
        span_id: SpanId(2),
        links: vec![],
        collector: None,
        sampled: true,
    };
    assert_eq!(format_jaeger_trace_context(&root), "1:2:0:1");
}

#[test]
fn extractor_needs_a_collector() {
    let parser = TraceHeaderParser::new(true);
    let without: SpanContextExtractor<u8> = SpanContextExtractor::new(parser.clone(), None);
    assert!(without.extract_from_headers(&Headers::new()).unwrap().is_none());
    assert!(without.extract_from_value("uber-trace-id", Some("1:2:0:1".to_string())).unwrap().is_none());

    let with = SpanContextExtractor::new(parser, Some(3u8));
    let span = with
        .extract_from_value("uber-trace-id", Some("1:2:0:1".to_string()))
        .unwrap()
        .unwrap();
    assert_eq!(span.trace_id.0, 1);
    assert_eq!(span.collector, Some(3));
}

#[test]
fn identifiers_are_never_zero() {
    assert_eq!(TraceId::new(0), None);
    assert_eq!(TraceId::new(7), Some(TraceId(7)));
    assert_eq!(SpanId::new(0), None);
    assert_eq!(SpanId::new(9).map(|s| s.get()), Some(9));
}
