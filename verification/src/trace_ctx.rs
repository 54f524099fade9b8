//! Extracting a span context from request headers, and writing one back
//! in the Jaeger format.
use rand::Rng;
use vstd::prelude::*;
use vstd::string::StringSliceAdditionalSpecFns;
use vstd::utf8::encode_utf8;

use crate::headers::{
    all_visible_ascii, ascii_lower, header_lookup, header_value_is_text, str_from_utf8, Headers,
};
use crate::hex::{append_hex, hex_chars};
use crate::hex::{IntErrorKind, ParseIntError};
use crate::jaeger::{
    flags_sampled, jaeger_decode, jaeger_text, lemma_jaeger_bytes_decode, lemma_jaeger_text_bytes,
    sampled_bit, DecodeError, DecodeFailure, JaegerCtx, SpanId, TraceId,
};

verus! {

/// The default header that carries a Jaeger trace context.
pub const DEFAULT_TRACE_HEADER_NAME: &'static str = "uber-trace-id";

/// A header value that is not text.
#[derive(Debug, Clone, Copy, PartialEq, Eq, Structural)]
pub struct ToStrError;

/// Error decoding a span context from its transport representation.
#[derive(Debug)]
pub enum ContextError {
    Missing { header: String },
    InvalidUtf8 { header: String, source: ToStrError },
    HeaderDecodeError { header: String, source: DecodeError },
}

/// The context of a span, with the collector that its spans are exported to.
#[derive(Debug)]
pub struct SpanContext<C> {
    pub trace_id: TraceId,
    pub parent_span_id: Option<SpanId>,
    pub span_id: SpanId,
    pub links: Vec<(TraceId, SpanId)>,
    pub collector: Option<C>,
    pub sampled: bool,
}

/// `rand::Rng::gen_range` on the thread-local generator: some value in `[low, high)`.
#[verifier::external_body]
fn random_u128_in(low: u128, high: u128) -> (r: u128)
    requires
        low < high,
    ensures
        low <= r < high,
{
    rand::thread_rng().gen_range(low..high)
}

/// `rand::Rng::gen_range` on the thread-local generator: some value in `[low, high)`.
#[verifier::external_body]
fn random_u64_in(low: u64, high: u64) -> (r: u64)
    requires
        low < high,
    ensures
        low <= r < high,
{
    rand::thread_rng().gen_range(low..high)
}

impl<C> SpanContext<C> {
    /// A sampled root span with fresh random identifiers.
    pub open spec fn is_fresh_root(&self, collector: Option<C>) -> bool {
        &&& self.trace_id.0 != 0
        &&& self.span_id.0 != 0
        &&& self.parent_span_id is None
        &&& self.links@.len() == 0
        &&& self.collector == collector
        &&& self.sampled
    }

    /// The span described by a decoded Jaeger header.
    pub open spec fn is_decoded_from(&self, j: JaegerCtx, collector: Option<C>) -> bool {
        &&& self.trace_id == j.trace_id
        &&& self.span_id == j.span_id
        &&& self.parent_span_id == j.parent_span_id
        &&& self.links@.len() == 0
        &&& self.collector == collector
        &&& self.sampled == flags_sampled(j.flags)
    }

    /// Starts a new trace: random non-zero identifiers, no parent, sampled.
    pub fn new_with_optional_collector(collector: Option<C>) -> (r: SpanContext<C>)
        ensures
            r.is_fresh_root(collector),
    {
        let trace_id = random_u128_in(1, u128::MAX);
        let span_id = random_u64_in(1, u64::MAX);
        SpanContext {
            trace_id: TraceId(trace_id),
            parent_span_id: None,
            span_id: SpanId(span_id),
            links: Vec::new(),
            collector,
            sampled: true,
        }
    }
}

/// Builds the span context of a decoded Jaeger header.
pub fn decode_jaeger<C>(collector: Option<C>, decoded: JaegerCtx) -> (r: Result<
    SpanContext<C>,
    ContextError,
>)
    ensures
        r matches Ok(ctx) && ctx.is_decoded_from(decoded, collector),
{
    let sampled = sampled_bit(decoded.flags);
    Ok(
        SpanContext {
            trace_id: decoded.trace_id,
            parent_span_id: decoded.parent_span_id,
            span_id: decoded.span_id,
            links: Vec::new(),
            collector,
            sampled,
        },
    )
}

/// The lookup key of a header name.
pub open spec fn header_key(header: &str) -> Seq<u8> {
    ascii_lower(header.spec_bytes())
}

/// Reads a header as text.
///
/// - `Ok(None)` if the header does not exist
/// - `Err` if its value is not text
/// - `Ok(Some(_))` otherwise
pub fn decoded_header<'a>(headers: &'a Headers, header: &str) -> (r: Result<
    Option<&'a str>,
    ContextError,
>)
    ensures
        match header_lookup(headers@, header_key(header)) {
            None => r matches Ok(None),
            Some(v) => if all_visible_ascii(v) {
                r matches Ok(Some(s)) && s.spec_bytes() == v
            } else {
                r matches Err(ContextError::InvalidUtf8 { header: h, .. }) && h@ == header@
            },
        },
{
    match headers.get(header) {
        None => Ok(None),
        Some(value) => {
            if header_value_is_text(value.as_slice()) {
                match str_from_utf8(value.as_slice()) {
                    Some(s) => Ok(Some(s)),
                    None => Err(
                        ContextError::InvalidUtf8 { header: header.to_owned(), source: ToStrError },
                    ),
                }
            } else {
                Err(ContextError::InvalidUtf8 { header: header.to_owned(), source: ToStrError })
            }
        },
    }
}

/// Reads and parses a header.
///
/// - `Ok(None)` if the header does not exist
/// - `Err` if its value is not text or does not parse
/// - `Ok(Some(_))` otherwise
pub fn parsed_header<T, F: FnOnce(&str) -> Result<T, DecodeError>>(
    headers: &Headers,
    header: &str,
    parse: F,
) -> (r: Result<Option<T>, ContextError>)
    requires
        forall|s: &str| #[trigger] call_requires(parse, (s,)),
    ensures
        match header_lookup(headers@, header_key(header)) {
            None => r matches Ok(None),
            Some(v) => if all_visible_ascii(v) {
                exists|s: &str|
                    #![trigger s.spec_bytes()]
                    s.spec_bytes() == v && ((r matches Ok(Some(t)) && call_ensures(
                        parse,
                        (s,),
                        Ok(t),
                    )) || (r matches Err(ContextError::HeaderDecodeError { header: h, source: e })
                        && h@ == header@ && call_ensures(parse, (s,), Err(e))))
            } else {
                r matches Err(ContextError::InvalidUtf8 { header: h, .. }) && h@ == header@
            },
        },
{
    match decoded_header(headers, header) {
        Err(e) => Err(e),
        Ok(None) => Ok(None),
        Ok(Some(s)) => {
            let res = parse(s);
            assert(s.spec_bytes() == s.spec_bytes());
            match res {
                Ok(t) => Ok(Some(t)),
                Err(source) => Err(
                    ContextError::HeaderDecodeError { header: header.to_owned(), source },
                ),
            }
        },
    }
}

/// Reads and parses a header that must be there.
pub fn required_header<T, F: FnOnce(&str) -> Result<T, DecodeError>>(
    headers: &Headers,
    header: &str,
    parse: F,
) -> (r: Result<T, ContextError>)
    requires
        forall|s: &str| #[trigger] call_requires(parse, (s,)),
    ensures
        match header_lookup(headers@, header_key(header)) {
            None => r matches Err(ContextError::Missing { header: h }) && h@ == header@,
            Some(v) => if all_visible_ascii(v) {
                exists|s: &str|
                    #![trigger s.spec_bytes()]
                    s.spec_bytes() == v && ((r matches Ok(t) && call_ensures(parse, (s,), Ok(t)))
                        || (r matches Err(ContextError::HeaderDecodeError { header: h, source: e })
                        && h@ == header@ && call_ensures(parse, (s,), Err(e))))
            } else {
                r matches Err(ContextError::InvalidUtf8 { header: h, .. }) && h@ == header@
            },
        },
{
    match parsed_header(headers, header, parse) {
        Err(e) => Err(e),
        Ok(Some(t)) => Ok(t),
        Ok(None) => Err(ContextError::Missing { header: header.to_owned() }),
    }
}

/// What a Jaeger header value gives: the span it decodes to, or the
/// error naming the header.
pub open spec fn jaeger_header_outcome<C>(
    r: Result<Option<SpanContext<C>>, ContextError>,
    name: Seq<char>,
    v: Seq<u8>,
    collector: Option<C>,
) -> bool {
    match jaeger_decode(v) {
        Ok(j) => r matches Ok(Some(ctx)) && ctx.is_decoded_from(j, collector),
        Err(f) => r matches Err(ContextError::HeaderDecodeError { header: h, source: e }) && h@
            == name && e.failure() == f && (e matches DecodeError::InvalidJaegerTrace { value }
            ==> encode_utf8(value@) == v),
    }
}

/// Extracts tracing information, such as the span context, if any, from
/// request headers.
#[derive(Debug, Clone)]
pub struct TraceHeaderParser {
    /// The header that carries a pre-existing trace context, if any.
    jaeger_trace_context_header_name: Option<String>,
    auto_generate_span: bool,
}

impl TraceHeaderParser {
    pub closed spec fn header_name(&self) -> Option<Seq<char>> {
        match self.jaeger_trace_context_header_name {
            Some(n) => Some(n@),
            None => None,
        }
    }

    pub closed spec fn auto_generate(&self) -> bool {
        self.auto_generate_span
    }

    /// What `parse` gives for these headers.
    pub open spec fn parse_outcome<C>(
        &self,
        r: Result<Option<SpanContext<C>>, ContextError>,
        collector: Option<C>,
        headers: Seq<(Seq<u8>, Seq<u8>)>,
    ) -> bool {
        match self.header_name() {
            None => r matches Ok(None),
            Some(name) => match header_lookup(headers, ascii_lower(encode_utf8(name))) {
                None => if self.auto_generate() {
                    r matches Ok(Some(ctx)) && ctx.is_fresh_root(collector)
                } else {
                    r matches Ok(None)
                },
                Some(v) => if all_visible_ascii(v) {
                    jaeger_header_outcome(r, name, v, collector)
                } else {
                    r matches Err(ContextError::InvalidUtf8 { header: h, .. }) && h@ == name
                },
            },
        }
    }

    /// What `parse_str` gives for this header text.
    pub open spec fn parse_str_outcome<C>(
        &self,
        r: Result<Option<SpanContext<C>>, ContextError>,
        collector: Option<C>,
        trace_header: Seq<char>,
        value: Option<String>,
    ) -> bool {
        match value {
            Some(v) => jaeger_header_outcome(r, trace_header, encode_utf8(v@), collector),
            None => if self.auto_generate() {
                r matches Ok(Some(ctx)) && ctx.is_fresh_root(collector)
            } else {
                r matches Ok(None)
            },
        }
    }

    /// A parser that reads the default Jaeger header.
    pub fn new(auto_generate_span: bool) -> (r: TraceHeaderParser)
        ensures
            r.header_name() == Some(DEFAULT_TRACE_HEADER_NAME@),
            r.auto_generate() == auto_generate_span,
    {
        TraceHeaderParser {
            jaeger_trace_context_header_name: Some(DEFAULT_TRACE_HEADER_NAME.to_owned()),
            auto_generate_span,
        }
    }

    /// A parser that reads no header and generates no span.
    pub fn default() -> (r: TraceHeaderParser)
        ensures
            r.header_name() is None,
            !r.auto_generate(),
    {
        TraceHeaderParser { jaeger_trace_context_header_name: None, auto_generate_span: false }
    }

    /// Reads the trace context from the header `name` instead.
    pub fn with_jaeger_trace_context_header_name(self, name: &str) -> (r: TraceHeaderParser)
        ensures
            r.header_name() == Some(name@),
            r.auto_generate() == self.auto_generate(),
    {
        TraceHeaderParser {
            jaeger_trace_context_header_name: Some(name.to_owned()),
            auto_generate_span: self.auto_generate_span,
        }
    }

    /// The span context of the trace described in the request's headers,
    /// if any; a fresh one when the header is absent and spans are
    /// generated.
    pub fn parse<C>(&self, collector: Option<C>, headers: &Headers) -> (r: Result<
        Option<SpanContext<C>>,
        ContextError,
    >)
        ensures
            self.parse_outcome(r, collector, headers@),
    {
        match &self.jaeger_trace_context_header_name {
            Some(trace_header) => {
                let name = trace_header.as_str();
                if headers.contains_key(name) {
                    let decoded = required_header(headers, name, JaegerCtx::from_str);
                    match decoded {
                        Ok(d) => {
                            let res = decode_jaeger(collector, d);
                            match res {
                                Ok(ctx) => Ok(Some(ctx)),
                                Err(e) => Err(e),
                            }
                        },
                        Err(e) => Err(e),
                    }
                } else if self.auto_generate_span {
                    Ok(Some(SpanContext::new_with_optional_collector(collector)))
                } else {
                    Ok(None)
                }
            },
            None => Ok(None),
        }
    }

    /// The span context described by the text of a trace header, if any;
    /// a fresh one when there is no text and spans are generated.
    pub fn parse_str<C>(&self, collector: Option<C>, trace_header: &str, value: Option<String>) -> (r:
        Result<Option<SpanContext<C>>, ContextError>)
        ensures
            self.parse_str_outcome(r, collector, trace_header@, value),
    {
        match value {
            Some(v) => {
                match JaegerCtx::from_str(v.as_str()) {
                    Ok(d) => {
                        let res = decode_jaeger(collector, d);
                        match res {
                            Ok(ctx) => Ok(Some(ctx)),
                            Err(e) => Err(e),
                        }
                    },
                    Err(err) => Err(
                        ContextError::HeaderDecodeError {
                            header: trace_header.to_owned(),
                            source: err,
                        },
                    ),
                }
            },
            None => if self.auto_generate_span {
                Ok(Some(SpanContext::new_with_optional_collector(collector)))
            } else {
                Ok(None)
            },
        }
    }
}

/// The text of an integer parse error.
pub open spec fn int_error_message(k: IntErrorKind) -> Seq<char> {
    match k {
        IntErrorKind::Empty => "cannot parse integer from empty string"@,
        IntErrorKind::InvalidDigit => "invalid digit found in string"@,
        IntErrorKind::PosOverflow => "number too large to fit in target type"@,
    }
}

/// The text of a header value decoding error.
pub open spec fn decode_error_message(e: &DecodeError) -> Seq<char> {
    match e {
        DecodeError::ValueDecodeError { source } => "value decode error: "@ + int_error_message(
            source.kind,
        ),
        DecodeError::InvalidJaegerTrace { value } => "Expected \"trace-id:span-id:parent-span-id:flags\", found: "@
            + value@,
        DecodeError::ZeroError => "value cannot be 0"@,
    }
}

/// The text of a context extraction error.
pub open spec fn context_error_message(e: &ContextError) -> Seq<char> {
    match e {
        ContextError::Missing { header } => "header '"@ + header@ + "' not found"@,
        ContextError::InvalidUtf8 { header, .. } => "header '"@ + header@
            + "' has non-UTF8 content: failed to convert header to a str"@,
        ContextError::HeaderDecodeError { header, source } => "decoding header '"@ + header@
            + "': "@ + decode_error_message(source),
    }
}

impl ParseIntError {
    pub fn to_string(&self) -> (r: String)
        ensures
            r@ == int_error_message(self.kind),
    {
        match self.kind {
            IntErrorKind::Empty => "cannot parse integer from empty string".to_owned(),
            IntErrorKind::InvalidDigit => "invalid digit found in string".to_owned(),
            IntErrorKind::PosOverflow => "number too large to fit in target type".to_owned(),
        }
    }
}

impl DecodeError {
    pub fn to_string(&self) -> (r: String)
        ensures
            r@ == decode_error_message(self),
    {
        match self {
            DecodeError::ValueDecodeError { source } => {
                let mut out = "value decode error: ".to_owned();
                let m = source.to_string();
                out.append(m.as_str());
                out
            },
            DecodeError::InvalidJaegerTrace { value } => {
                let mut out = "Expected \"trace-id:span-id:parent-span-id:flags\", found: ".to_owned();
                out.append(value.as_str());
                out
            },
            DecodeError::ZeroError => "value cannot be 0".to_owned(),
        }
    }
}

impl ContextError {
    pub fn to_string(&self) -> (r: String)
        ensures
            r@ == context_error_message(self),
    {
        match self {
            ContextError::Missing { header } => {
                let mut out = "header '".to_owned();
                out.append(header.as_str());
                out.append("' not found");
                out
            },
            ContextError::InvalidUtf8 { header, .. } => {
                let mut out = "header '".to_owned();
                out.append(header.as_str());
                out.append("' has non-UTF8 content: failed to convert header to a str");
                out
            },
            ContextError::HeaderDecodeError { header, source } => {
                let mut out = "decoding header '".to_owned();
                out.append(header.as_str());
                out.append("': ");
                let m = source.to_string();
                out.append(m.as_str());
                out
            },
        }
    }
}

/// The Jaeger text of a span context.
pub open spec fn context_text<C>(ctx: &SpanContext<C>) -> Seq<char> {
    jaeger_text(
        ctx.trace_id.0 as nat,
        ctx.span_id.0 as nat,
        match ctx.parent_span_id {
            Some(p) => p.0 as nat,
            None => 0,
        },
        ctx.sampled,
    )
}

/// Formats a span context as a Jaeger trace context value
/// `trace-id:span-id:parent-span-id:flags`, without the header name.
pub fn format_jaeger_trace_context<C>(span_context: &SpanContext<C>) -> (r: String)
    ensures
        r@ == context_text(span_context),
{
    proof {
        reveal_strlit(":");
        reveal_strlit("1");
        reveal_strlit("0");
    }
    let mut out = String::new();
    append_hex(&mut out, span_context.trace_id.0);
    out.append(":");
    append_hex(&mut out, span_context.span_id.0 as u128);
    out.append(":");
    let parent: u64 = match span_context.parent_span_id {
        Some(p) => p.0,
        None => 0,
    };
    append_hex(&mut out, parent as u128);
    out.append(":");
    if span_context.sampled {
        out.append("1");
    } else {
        out.append("0");
    }
    out
}

/// A span context written with `format_jaeger_trace_context` and read back
/// with `TraceHeaderParser::parse_str` comes back with the same trace, span
/// and parent identifiers and the same sampling decision, when its
/// identifiers are non-zero.
pub proof fn lemma_format_then_parse<C>(ctx: SpanContext<C>, collector: Option<C>)
    requires
        ctx.trace_id.valid(),
        ctx.span_id.valid(),
        ctx.parent_span_id matches Some(p) ==> p.valid(),
    ensures
        jaeger_decode(encode_utf8(context_text(&ctx))) == Ok::<JaegerCtx, DecodeFailure>(
            JaegerCtx {
                trace_id: ctx.trace_id,
                span_id: ctx.span_id,
                parent_span_id: ctx.parent_span_id,
                flags: if ctx.sampled {
                    1
                } else {
                    0
                },
            },
        ),
        forall|r: Result<Option<SpanContext<C>>, ContextError>, name: Seq<char>|
            #[trigger] jaeger_header_outcome(r, name, encode_utf8(context_text(&ctx)), collector) ==> (
            r matches Ok(Some(back)) && back.trace_id == ctx.trace_id && back.span_id
                == ctx.span_id && back.parent_span_id == ctx.parent_span_id && back.sampled
                == ctx.sampled),
{
    let parent: u64 = match ctx.parent_span_id {
        Some(p) => p.0,
        None => 0,
    };
    lemma_jaeger_text_bytes(ctx.trace_id.0 as nat, ctx.span_id.0 as nat, parent as nat, ctx.sampled);
    lemma_jaeger_bytes_decode(ctx.trace_id.0, ctx.span_id.0, parent, ctx.sampled);
    assert(flags_sampled(1u8));
    assert(!flags_sampled(0u8));
}

/// Any parser, handed the text that `format_jaeger_trace_context` wrote for
/// a context, gives back a context with the same trace, span and parent
/// identifiers and sampling, no links, and the collector it was given.
pub proof fn lemma_format_then_parse_str<C>(
    parser: TraceHeaderParser,
    ctx: SpanContext<C>,
    collector: Option<C>,
    trace_header: Seq<char>,
    value: String,
    r: Result<Option<SpanContext<C>>, ContextError>,
)
    requires
        ctx.trace_id.valid(),
        ctx.span_id.valid(),
        ctx.parent_span_id matches Some(p) ==> p.valid(),
        value@ == context_text(&ctx),
        parser.parse_str_outcome(r, collector, trace_header, Some(value)),
    ensures
        r matches Ok(Some(back)) && back.trace_id == ctx.trace_id && back.span_id == ctx.span_id
            && back.parent_span_id == ctx.parent_span_id && back.sampled == ctx.sampled
            && back.links@.len() == 0 && back.collector == collector,
{
    lemma_format_then_parse(ctx, collector);
    assert(jaeger_header_outcome(r, trace_header, encode_utf8(context_text(&ctx)), collector));
}

/// A simple way to format an external span context in a Jaeger-like fashion, e.g. for logging.
pub trait RequestLogContextExt {
    /// The Jaeger text of the context, if there is one.
    fn format_jaeger(&self) -> Option<String>;
}

impl<C> RequestLogContextExt for Option<SpanContext<C>> {
    fn format_jaeger(&self) -> (r: Option<String>)
        ensures
            match self {
                Some(ctx) => r matches Some(t) && t@ == context_text(ctx),
                None => r is None,
            },
    {
        match self {
            Some(ctx) => Some(format_jaeger_trace_context(ctx)),
            None => None,
        }
    }
}

impl<'a, C> RequestLogContextExt for Option<&'a SpanContext<C>> {
    fn format_jaeger(&self) -> (r: Option<String>)
        ensures
            match self {
                Some(ctx) => r matches Some(t) && t@ == context_text(*ctx),
                None => r is None,
            },
    {
        match self {
            Some(ctx) => Some(format_jaeger_trace_context(*ctx)),
            None => None,
        }
    }
}

/// Extracts span contexts from requests when a collector is configured.
#[derive(Debug, Clone)]
pub struct SpanContextExtractor<C> {
    pub trace_header_parser: TraceHeaderParser,
    pub collector: Option<C>,
}

impl<C: Clone> SpanContextExtractor<C> {
    pub fn new(trace_header_parser: TraceHeaderParser, collector: Option<C>) -> (r: Self)
        ensures
            r.trace_header_parser == trace_header_parser,
            r.collector == collector,
    {
        SpanContextExtractor { trace_header_parser, collector }
    }

    /// No context without a collector; otherwise what the parser reads,
    /// with a clone of the collector.
    pub fn extract_from_headers(&self, headers: &Headers) -> (r: Result<
        Option<SpanContext<C>>,
        ContextError,
    >)
        ensures
            match self.collector {
                None => r matches Ok(None),
                Some(c) => exists|c2: C|
                    cloned(c, c2) && self.trace_header_parser.parse_outcome(
                        r,
                        Some(c2),
                        headers@,
                    ),
            },
    {
        if self.collector.is_none() {
            return Ok(None);
        }
        let c = self.collector.clone();
        self.trace_header_parser.parse(c, headers)
    }

    /// No context without a collector; otherwise what the parser reads
    /// from the given header text.
    pub fn extract_from_value(&self, trace_header: &str, value: Option<String>) -> (r: Result<
        Option<SpanContext<C>>,
        ContextError,
    >)
        ensures
            match self.collector {
                None => r matches Ok(None),
                Some(c) => exists|c2: C|
                    cloned(c, c2) && self.trace_header_parser.parse_str_outcome(
                        r,
                        Some(c2),
                        trace_header@,
                        value,
                    ),
            },
    {
        if self.collector.is_none() {
            return Ok(None);
        }
        let c = self.collector.clone();
        self.trace_header_parser.parse_str(c, trace_header, value)
    }
}

} // verus!
