//! The Jaeger trace-context value `trace-id:span-id:parent-span-id:flags`,
//! each part in base 16.
use vstd::prelude::*;
use vstd::string::StringSliceAdditionalSpecFns;

use crate::hex::{
    hex_chars, hex_digits_result, hex_text, lemma_hex_roundtrip, lemma_hex_text_shape, parse_radix16,
    radix16_result, IntErrorKind, ParseIntError,
};
use vstd::utf8::encode_utf8;

verus! {

/// A trace identifier; never zero.
#[derive(Debug, Clone, Copy, PartialEq, Eq, Structural)]
pub struct TraceId(pub u128);

/// A span identifier; never zero.
#[derive(Debug, Clone, Copy, PartialEq, Eq, Structural)]
pub struct SpanId(pub u64);

impl TraceId {
    /// A valid trace identifier is not zero.
    pub open spec fn valid(self) -> bool {
        self.0 != 0
    }

    /// The identifier `v`, unless it is zero.
    pub fn new(v: u128) -> (r: Option<TraceId>)
        ensures
            r == (if v == 0 {
                None
            } else {
                Some(TraceId(v))
            }),
    {
        if v == 0 {
            None
        } else {
            Some(TraceId(v))
        }
    }

    pub fn get(&self) -> (r: u128)
        ensures
            r == self.0,
    {
        self.0
    }
}

impl SpanId {
    /// A valid span identifier is not zero.
    pub open spec fn valid(self) -> bool {
        self.0 != 0
    }

    /// The identifier `v`, unless it is zero.
    pub fn new(v: u64) -> (r: Option<SpanId>)
        ensures
            r == (if v == 0 {
                None
            } else {
                Some(SpanId(v))
            }),
    {
        if v == 0 {
            None
        } else {
            Some(SpanId(v))
        }
    }

    pub fn get(&self) -> (r: u64)
        ensures
            r == self.0,
    {
        self.0
    }
}

/// What went wrong in one header value, as far as the logic tells it apart.
#[derive(Debug, Clone, Copy, PartialEq, Eq, Structural)]
pub enum DecodeFailure {
    /// A part is not a base-16 number of its width.
    Value(IntErrorKind),
    /// The value does not have four parts.
    Format,
    /// An identifier is zero.
    Zero,
}

/// Error decoding a specific header value.
#[derive(Debug)]
pub enum DecodeError {
    ValueDecodeError { source: ParseIntError },
    InvalidJaegerTrace { value: String },
    ZeroError,
}

impl DecodeError {
    pub open spec fn failure(&self) -> DecodeFailure {
        match self {
            DecodeError::ValueDecodeError { source } => DecodeFailure::Value(source.kind),
            DecodeError::InvalidJaegerTrace { .. } => DecodeFailure::Format,
            DecodeError::ZeroError => DecodeFailure::Zero,
        }
    }
}

/// Positions of the `:` bytes, from the left.
pub open spec fn colon_positions(b: Seq<u8>) -> Seq<int>
    decreases b.len(),
{
    if b.len() == 0 {
        Seq::empty()
    } else if b.last() == 58u8 {
        colon_positions(b.drop_last()).push(b.len() - 1)
    } else {
        colon_positions(b.drop_last())
    }
}

/// The four parts between colons, when there are exactly three colons
/// (what splitting on `:` and collecting exactly four items gives).
pub open spec fn jaeger_parts(b: Seq<u8>) -> Option<(Seq<u8>, Seq<u8>, Seq<u8>, Seq<u8>)> {
    let p = colon_positions(b);
    if p.len() == 3 {
        Some(
            (
                b.subrange(0, p[0]),
                b.subrange(p[0] + 1, p[1]),
                b.subrange(p[1] + 1, p[2]),
                b.subrange(p[2] + 1, b.len() as int),
            ),
        )
    } else {
        None
    }
}

/// A non-zero identifier in base 16 no larger than `max`.
pub open spec fn id_result(s: Seq<u8>, max: nat) -> Result<nat, DecodeFailure> {
    match radix16_result(s, max) {
        Err(k) => Err(DecodeFailure::Value(k)),
        Ok(v) => if v == 0 {
            Err(DecodeFailure::Zero)
        } else {
            Ok(v)
        },
    }
}

/// The decoded context of a Jaeger header value.
pub open spec fn jaeger_decode(b: Seq<u8>) -> Result<JaegerCtx, DecodeFailure> {
    match jaeger_parts(b) {
        None => Err(DecodeFailure::Format),
        Some((t, s, p, f)) => match id_result(t, u128::MAX as nat) {
            Err(e) => Err(e),
            Ok(tv) => match id_result(s, u64::MAX as nat) {
                Err(e) => Err(e),
                Ok(sv) => {
                    let parent: Result<Option<SpanId>, DecodeFailure> = match id_result(
                        p,
                        u64::MAX as nat,
                    ) {
                        Ok(pv) => Ok(Some(SpanId(pv as u64))),
                        Err(DecodeFailure::Zero) => Ok(None),
                        Err(e) => Err(e),
                    };
                    match parent {
                        Err(e) => Err(e),
                        Ok(pv) => match radix16_result(f, 255) {
                            Err(k) => Err(DecodeFailure::Value(k)),
                            Ok(fv) => Ok(
                                JaegerCtx {
                                    trace_id: TraceId(tv as u128),
                                    span_id: SpanId(sv as u64),
                                    parent_span_id: pv,
                                    flags: fv as u8,
                                },
                            ),
                        },
                    }
                },
            },
        },
    }
}

/// A decoded Jaeger trace context.
#[derive(Debug, Clone, Copy, PartialEq, Eq, Structural)]
pub struct JaegerCtx {
    pub trace_id: TraceId,
    pub span_id: SpanId,
    pub parent_span_id: Option<SpanId>,
    pub flags: u8,
}

proof fn lemma_colon_positions(b: Seq<u8>)
    ensures
        forall|k: int|
            0 <= k < colon_positions(b).len() ==> 0 <= #[trigger] colon_positions(b)[k] < b.len()
                && b[colon_positions(b)[k]] == 58u8,
        forall|k: int, l: int|
            0 <= k < l < colon_positions(b).len() ==> #[trigger] colon_positions(b)[k]
                < #[trigger] colon_positions(b)[l],
    decreases b.len(),
{
    if b.len() > 0 {
        let d = b.drop_last();
        lemma_colon_positions(d);
        let p = colon_positions(b);
        let pd = colon_positions(d);
        assert forall|k: int| 0 <= k < pd.len() implies p[k] == pd[k] && b[pd[k]] == d[pd[k]] by {}
        assert forall|k: int|
            0 <= k < p.len() implies 0 <= #[trigger] p[k] < b.len() && b[p[k]] == 58u8 by {
            if k < pd.len() {
                assert(p[k] == pd[k]);
            }
        }
        assert forall|k: int, l: int| 0 <= k < l < p.len() implies #[trigger] p[k] < #[trigger] p[l] by {
            assert(p[k] == pd[k]);
            if l < pd.len() {
                assert(p[l] == pd[l]);
            }
        }
    }
}

fn parse_id(s: &[u8], max: u128) -> (r: Result<u128, DecodeError>)
    requires
        max >= 15,
    ensures
        match id_result(s@, max as nat) {
            Ok(v) => r matches Ok(x) && x == v,
            Err(f) => r matches Err(e) && e.failure() == f,
        },
{
    match parse_radix16(s, max) {
        Err(source) => Err(DecodeError::ValueDecodeError { source }),
        Ok(v) => if v == 0 {
            Err(DecodeError::ZeroError)
        } else {
            Ok(v)
        },
    }
}

/// Parses a trace identifier.
pub fn parse_trace(s: &[u8]) -> (r: Result<TraceId, DecodeError>)
    ensures
        match id_result(s@, u128::MAX as nat) {
            Ok(v) => r matches Ok(x) && x.0 == v,
            Err(f) => r matches Err(e) && e.failure() == f,
        },
{
    match parse_id(s, u128::MAX) {
        Ok(v) => Ok(TraceId(v)),
        Err(e) => Err(e),
    }
}

/// Parses a span identifier.
pub fn parse_span(s: &[u8]) -> (r: Result<SpanId, DecodeError>)
    ensures
        match id_result(s@, u64::MAX as nat) {
            Ok(v) => r matches Ok(x) && x.0 == v,
            Err(f) => r matches Err(e) && e.failure() == f,
        },
{
    match parse_id(s, u64::MAX as u128) {
        Ok(v) => Ok(SpanId(v as u64)),
        Err(e) => Err(e),
    }
}

fn colon_indices(b: &[u8]) -> (r: Vec<usize>)
    ensures
        r@.len() == colon_positions(b@).len(),
        forall|k: int| 0 <= k < r@.len() ==> r@[k] as int == colon_positions(b@)[k],
{
    let mut r: Vec<usize> = Vec::new();
    let n = b.len();
    for i in 0..n
        invariant
            n == b@.len(),
            r@.len() == colon_positions(b@.take(i as int)).len(),
            forall|k: int|
                0 <= k < r@.len() ==> r@[k] as int == colon_positions(b@.take(i as int))[k],
    {
        let ghost t = b@.take(i as int + 1);
        assert(t.drop_last() =~= b@.take(i as int));
        assert(t.last() == b@[i as int]);
        if b[i] == 58u8 {
            r.push(i);
        }
    }
    assert(b@.take(n as int) =~= b@);
    r
}

impl JaegerCtx {
    /// Decodes `trace-id:span-id:parent-span-id:flags`; a zero parent
    /// span means there is none.
    pub fn from_str(s: &str) -> (r: Result<JaegerCtx, DecodeError>)
        ensures
            match jaeger_decode(s.spec_bytes()) {
                Ok(j) => r == Ok::<JaegerCtx, DecodeError>(j),
                Err(f) => r matches Err(e) && e.failure() == f && (e matches DecodeError::InvalidJaegerTrace {
                    value,
                } ==> value@ == s@),
            },
    {
        let b = s.as_bytes();
        let n = b.len();
        let idx = colon_indices(b);
        proof {
            lemma_colon_positions(b@);
        }
        if idx.len() != 3 {
            return Err(DecodeError::InvalidJaegerTrace { value: s.to_owned() });
        }
        let p0 = idx[0];
        let p1 = idx[1];
        let p2 = idx[2];
        assert(p0 as int == colon_positions(b@)[0]);
        assert(p1 as int == colon_positions(b@)[1]);
        assert(p2 as int == colon_positions(b@)[2]);
        assert(p0 < p1 < p2 < b@.len());
        let t = vstd::slice::slice_subrange(b, 0, p0);
        let sp = vstd::slice::slice_subrange(b, p0 + 1, p1);
        let pp = vstd::slice::slice_subrange(b, p1 + 1, p2);
        let f = vstd::slice::slice_subrange(b, p2 + 1, n);
        let trace_id = match parse_trace(t) {
            Ok(v) => v,
            Err(e) => return Err(e),
        };
        let span_id = match parse_span(sp) {
            Ok(v) => v,
            Err(e) => return Err(e),
        };
        let parent_span_id = match parse_span(pp) {
            Ok(v) => Some(v),
            Err(DecodeError::ZeroError) => None,
            Err(e) => return Err(e),
        };
        let flags = match parse_radix16(f, 255) {
            Ok(v) => v as u8,
            Err(source) => return Err(DecodeError::ValueDecodeError { source }),
        };
        Ok(JaegerCtx { trace_id, span_id, parent_span_id, flags })
    }
}

/// Whether the sampled bit of the flags is set.
pub open spec fn flags_sampled(flags: u8) -> bool {
    flags % 2 == 1
}

pub fn sampled_bit(flags: u8) -> (r: bool)
    ensures
        r == flags_sampled(flags),
{
    assert((flags & 0x01 == 1) == (flags % 2 == 1)) by (bit_vector);
    flags & 0x01 == 1
}

/// The Jaeger text of a context: the three identifiers in lower-case base
/// 16 (a missing parent as `0`) and the flags `1` or `0`.
pub open spec fn jaeger_text(trace: nat, span: nat, parent: nat, sampled: bool) -> Seq<char> {
    hex_chars(trace) + seq![':'] + hex_chars(span) + seq![':'] + hex_chars(parent) + seq![':'] + (
    if sampled {
        seq!['1']
    } else {
        seq!['0']
    })
}

pub open spec fn jaeger_bytes(trace: nat, span: nat, parent: nat, sampled: bool) -> Seq<u8> {
    hex_text(trace) + seq![58u8] + hex_text(span) + seq![58u8] + hex_text(parent) + seq![58u8] + (
    if sampled {
        seq![49u8]
    } else {
        seq![48u8]
    })
}

proof fn lemma_colon_positions_concat(a: Seq<u8>, b: Seq<u8>)
    ensures
        colon_positions(a + b) == colon_positions(a) + colon_positions(b).map_values(
            |k: int| k + a.len(),
        ),
    decreases b.len(),
{
    if b.len() == 0 {
        assert(a + b =~= a);
        assert(colon_positions(b).map_values(|k: int| k + a.len()) =~= Seq::<int>::empty());
        assert(colon_positions(a) + Seq::<int>::empty() =~= colon_positions(a));
    } else {
        let ab = a + b;
        assert(ab.drop_last() =~= a + b.drop_last());
        lemma_colon_positions_concat(a, b.drop_last());
        assert(ab.last() == b.last());
        let pb = colon_positions(b.drop_last()).map_values(|k: int| k + a.len());
        if b.last() == 58u8 {
            assert(colon_positions(b).map_values(|k: int| k + a.len()) =~= pb.push(
                b.len() - 1 + a.len(),
            ));
            assert(colon_positions(a) + pb.push(ab.len() - 1) =~= (colon_positions(a) + pb).push(
                ab.len() - 1,
            ));
        } else {
            assert(colon_positions(b).map_values(|k: int| k + a.len()) =~= pb);
        }
    }
}

proof fn lemma_no_colons(b: Seq<u8>)
    requires
        forall|i: int| 0 <= i < b.len() ==> b[i] != 58u8,
    ensures
        colon_positions(b) == Seq::<int>::empty(),
    decreases b.len(),
{
    if b.len() > 0 {
        lemma_no_colons(b.drop_last());
    }
}

proof fn lemma_hex_text_no_colons(v: nat)
    ensures
        colon_positions(hex_text(v)) == Seq::<int>::empty(),
{
    lemma_hex_text_shape(v);
    lemma_no_colons(hex_text(v));
}

/// The Jaeger text is ASCII, so its UTF-8 bytes are its characters.
pub proof fn lemma_jaeger_text_bytes(trace: nat, span: nat, parent: nat, sampled: bool)
    ensures
        encode_utf8(jaeger_text(trace, span, parent, sampled)) == jaeger_bytes(
            trace,
            span,
            parent,
            sampled,
        ),
{
    let t = jaeger_text(trace, span, parent, sampled);
    let b = jaeger_bytes(trace, span, parent, sampled);
    lemma_hex_text_shape(trace);
    lemma_hex_text_shape(span);
    lemma_hex_text_shape(parent);
    assert(t =~= b.map_values(|x: u8| x as char));
    assert forall|i: int| 0 <= i < b.len() implies b[i] < 128 by {
        let l0 = hex_text(trace).len() as int;
        let l1 = hex_text(span).len() as int;
        let l2 = hex_text(parent).len() as int;
        if i < l0 {
            assert(b[i] == hex_text(trace)[i]);
        } else if i == l0 {
        } else if i < l0 + 1 + l1 {
            assert(b[i] == hex_text(span)[i - l0 - 1]);
        } else if i == l0 + 1 + l1 {
        } else if i < l0 + l1 + 2 + l2 {
            assert(b[i] == hex_text(parent)[i - l0 - l1 - 2]);
        }
    }
    assert(vstd::utf8::is_ascii_chars(t));
    vstd::utf8::is_ascii_chars_encode_utf8(t);
    assert(encode_utf8(t) =~= b);
}

/// Decoding the Jaeger text of non-zero identifiers gives them back,
/// with a zero parent read as no parent.
pub proof fn lemma_jaeger_bytes_decode(trace: u128, span: u64, parent: u64, sampled: bool)
    requires
        trace != 0,
        span != 0,
    ensures
        jaeger_decode(jaeger_bytes(trace as nat, span as nat, parent as nat, sampled)) == Ok::<
            JaegerCtx,
            DecodeFailure,
        >(
            JaegerCtx {
                trace_id: TraceId(trace),
                span_id: SpanId(span),
                parent_span_id: if parent == 0 {
                    None
                } else {
                    Some(SpanId(parent))
                },
                flags: if sampled {
                    1
                } else {
                    0
                },
            },
        ),
{
    let ht = hex_text(trace as nat);
    let hs = hex_text(span as nat);
    let hp = hex_text(parent as nat);
    let fl: Seq<u8> = if sampled {
        seq![49u8]
    } else {
        seq![48u8]
    };
    let c: Seq<u8> = seq![58u8];
    let b = jaeger_bytes(trace as nat, span as nat, parent as nat, sampled);
    assert(b == ht + c + hs + c + hp + c + fl);
    lemma_hex_text_no_colons(trace as nat);
    lemma_hex_text_no_colons(span as nat);
    lemma_hex_text_no_colons(parent as nat);
    lemma_no_colons(fl);
    assert(colon_positions(c) =~= seq![0int]) by {
        assert(c.drop_last() =~= Seq::<u8>::empty());
        assert(colon_positions(c.drop_last()) =~= Seq::<int>::empty());
        assert(c.last() == 58u8);
    }
    let s1 = ht + c;
    let s2 = s1 + hs;
    let s3 = s2 + c;
    let s4 = s3 + hp;
    let s5 = s4 + c;
    lemma_colon_positions_concat(ht, c);
    lemma_colon_positions_concat(s1, hs);
    lemma_colon_positions_concat(s2, c);
    lemma_colon_positions_concat(s3, hp);
    lemma_colon_positions_concat(s4, c);
    lemma_colon_positions_concat(s5, fl);
    let l0 = ht.len() as int;
    let l1 = hs.len() as int;
    let l2 = hp.len() as int;
    assert(colon_positions(s1) =~= seq![l0]);
    assert(colon_positions(s2) =~= seq![l0]);
    assert(colon_positions(s3) =~= seq![l0, l0 + 1 + l1]);
    assert(colon_positions(s4) =~= seq![l0, l0 + 1 + l1]);
    assert(colon_positions(s5) =~= seq![l0, l0 + 1 + l1, l0 + l1 + l2 + 2]);
    assert(s5 + fl == b);
    assert(colon_positions(b) =~= seq![l0, l0 + 1 + l1, l0 + l1 + l2 + 2]);
    assert(b.subrange(0, l0) =~= ht);
    assert(b.subrange(l0 + 1, l0 + 1 + l1) =~= hs);
    assert(b.subrange(l0 + l1 + 2, l0 + l1 + l2 + 2) =~= hp);
    assert(b.subrange(l0 + l1 + l2 + 3, b.len() as int) =~= fl);
    lemma_hex_roundtrip(trace as nat, u128::MAX as nat);
    lemma_hex_roundtrip(span as nat, u64::MAX as nat);
    lemma_hex_roundtrip(parent as nat, u64::MAX as nat);
    assert(fl.drop_last() =~= Seq::<u8>::empty());
    assert(hex_digits_result(fl.drop_last(), 255) == Ok::<nat, IntErrorKind>(0));
    assert(radix16_result(fl, 255) == Ok::<nat, IntErrorKind>(if sampled {
        1
    } else {
        0
    }));
}

} // verus!
