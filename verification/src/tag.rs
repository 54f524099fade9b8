//! Series tags: key/value byte strings, their checks and their order.
use vstd::prelude::*;
use vstd::string::StringSliceAdditionalSpecFns;

verus! {

pub type TagKey = Vec<u8>;

pub type TagValue = Vec<u8>;

/// The longest tag key.
pub const TAG_KEY_MAX_LEN: usize = 512;

/// The longest tag value.
pub const TAG_VALUE_MAX_LEN: usize = 4096;

/// A tag of a series.
#[derive(Debug, PartialEq, Eq, Hash, Clone)]
pub struct Tag {
    pub key: TagKey,
    pub value: TagValue,
}

/// A tag as it arrives in a flatbuffer message: either part may be missing.
#[derive(Debug, Clone)]
pub struct FbTag {
    pub key: Option<Vec<u8>>,
    pub value: Option<Vec<u8>>,
}

/// Errors of the data model.
#[derive(Debug)]
pub enum ModelError {
    InvalidFlatbufferMessage { err: String },
    InvalidTag { err: String },
}

pub open spec fn tag_view(t: Tag) -> (Seq<u8>, Seq<u8>) {
    (t.key@, t.value@)
}

/// Byte strings in lexicographic order: the first differing byte decides,
/// and a proper prefix comes first.
pub open spec fn lex_lt(a: Seq<u8>, b: Seq<u8>) -> bool
    decreases a.len(),
{
    if b.len() == 0 {
        false
    } else if a.len() == 0 {
        true
    } else if a[0] < b[0] {
        true
    } else if a[0] > b[0] {
        false
    } else {
        lex_lt(a.drop_first(), b.drop_first())
    }
}

pub proof fn lemma_lex_irreflexive(a: Seq<u8>)
    ensures
        !lex_lt(a, a),
    decreases a.len(),
{
    if a.len() > 0 {
        lemma_lex_irreflexive(a.drop_first());
    }
}

pub proof fn lemma_lex_transitive(a: Seq<u8>, b: Seq<u8>, c: Seq<u8>)
    requires
        lex_lt(a, b),
        lex_lt(b, c),
    ensures
        lex_lt(a, c),
    decreases a.len(),
{
    if a.len() > 0 && b.len() > 0 && c.len() > 0 && a[0] == b[0] && b[0] == c[0] {
        lemma_lex_transitive(a.drop_first(), b.drop_first(), c.drop_first());
    }
}

pub proof fn lemma_lex_total(a: Seq<u8>, b: Seq<u8>)
    ensures
        lex_lt(a, b) || a == b || lex_lt(b, a),
    decreases a.len(),
{
    if a.len() > 0 && b.len() > 0 && a[0] == b[0] {
        lemma_lex_total(a.drop_first(), b.drop_first());
        if a.drop_first() == b.drop_first() {
            assert(a =~= seq![a[0]] + a.drop_first());
            assert(b =~= seq![b[0]] + b.drop_first());
        }
    } else if a.len() == 0 && b.len() == 0 {
        assert(a =~= b);
    }
}

proof fn lemma_lex_common_prefix(a: Seq<u8>, b: Seq<u8>, i: int)
    requires
        0 <= i <= a.len(),
        i <= b.len(),
        a.take(i) == b.take(i),
    ensures
        lex_lt(a, b) == lex_lt(a.skip(i), b.skip(i)),
    decreases i,
{
    if i > 0 {
        assert(a[0] == a.take(i)[0]);
        assert(b[0] == b.take(i)[0]);
        assert(a.drop_first().take(i - 1) =~= a.take(i).drop_first());
        assert(b.drop_first().take(i - 1) =~= b.take(i).drop_first());
        lemma_lex_common_prefix(a.drop_first(), b.drop_first(), i - 1);
        assert(a.drop_first().skip(i - 1) =~= a.skip(i));
        assert(b.drop_first().skip(i - 1) =~= b.skip(i));
    } else {
        assert(a.skip(0) =~= a);
        assert(b.skip(0) =~= b);
    }
}

/// Whether key `a` sorts before key `b`.
pub fn key_lt(a: &Vec<u8>, b: &Vec<u8>) -> (r: bool)
    ensures
        r == lex_lt(a@, b@),
{
    let n = a.len();
    let m = b.len();
    let mut i: usize = 0;
    while i < n && i < m
        invariant
            i <= n,
            i <= m,
            n == a@.len(),
            m == b@.len(),
            a@.take(i as int) == b@.take(i as int),
        decreases n - i,
    {
        if a[i] != b[i] {
            proof {
                lemma_lex_common_prefix(a@, b@, i as int);
                assert(a@.skip(i as int)[0] == a@[i as int]);
                assert(b@.skip(i as int)[0] == b@[i as int]);
            }
            return a[i] < b[i];
        }
        assert(a@.take(i as int + 1) =~= a@.take(i as int).push(a@[i as int]));
        assert(b@.take(i as int + 1) =~= b@.take(i as int).push(b@[i as int]));
        i = i + 1;
    }
    proof {
        lemma_lex_common_prefix(a@, b@, i as int);
    }
    n < m
}

/// Tags in order of their keys.
pub open spec fn sorted_by_key(s: Seq<(Seq<u8>, Seq<u8>)>) -> bool {
    forall|i: int, j: int| 0 <= i < j < s.len() ==> !lex_lt(#[trigger] s[j].0, #[trigger] s[i].0)
}

/// Whether a tag has key `k`.
pub open spec fn has_key(k: Seq<u8>) -> spec_fn((Seq<u8>, Seq<u8>)) -> bool {
    |t: (Seq<u8>, Seq<u8>)| t.0 == k
}

/// The tags with key `k`, in order.
pub open spec fn with_key(s: Seq<(Seq<u8>, Seq<u8>)>, k: Seq<u8>) -> Seq<(Seq<u8>, Seq<u8>)> {
    s.filter(has_key(k))
}

pub open spec fn tags_view(s: Seq<Tag>) -> Seq<(Seq<u8>, Seq<u8>)> {
    s.map_values(|t: Tag| tag_view(t))
}

proof fn lemma_with_key_insert(
    r: Seq<(Seq<u8>, Seq<u8>)>,
    p: int,
    x: (Seq<u8>, Seq<u8>),
    k: Seq<u8>,
)
    requires
        0 <= p <= r.len(),
        forall|j: int| p <= j < r.len() ==> #[trigger] r[j].0 != x.0,
    ensures
        with_key(r.insert(p, x), k) == if x.0 == k {
            with_key(r, k).push(x)
        } else {
            with_key(r, k)
        },
{
    let pred = has_key(k);
    let a = r.take(p);
    let b = r.skip(p);
    assert(r =~= a + b);
    assert(r.insert(p, x) =~= a + seq![x] + b);
    Seq::filter_distributes_over_add(a, b, pred);
    Seq::filter_distributes_over_add(a + seq![x], b, pred);
    Seq::filter_distributes_over_add(a, seq![x], pred);
    assert(seq![x].filter(pred) =~= if x.0 == k {
        seq![x]
    } else {
        Seq::empty()
    }) by {
        reveal_with_fuel(Seq::<_>::filter, 2);
        assert(seq![x].drop_last() =~= Seq::<(Seq<u8>, Seq<u8>)>::empty());
    }
    if x.0 == k {
        assert(forall|j: int| 0 <= j < b.len() ==> !pred(#[trigger] b[j])) by {
            assert forall|j: int| 0 <= j < b.len() implies !pred(#[trigger] b[j]) by {
                assert(b[j] == r[p + j]);
            }
        }
        b.lemma_all_neg_filter_empty(pred);
        assert(b.filter(pred) =~= Seq::empty());
        assert(a.filter(pred) + seq![x] + b.filter(pred) =~= (a.filter(pred) + b.filter(pred)).push(x));
    } else {
        assert(a.filter(pred) + Seq::empty() + b.filter(pred) =~= a.filter(pred) + b.filter(pred));
    }
}

/// Sorts tags by key; tags with equal keys keep their order.
pub fn sort_tags(tags: &mut Vec<Tag>)
    ensures
        tags_view(final(tags)@).to_multiset() == tags_view(old(tags)@).to_multiset(),
        sorted_by_key(tags_view(final(tags)@)),
        forall|k: Seq<u8>|
            #[trigger] with_key(tags_view(final(tags)@), k) == with_key(tags_view(old(tags)@), k),
{
    broadcast use vstd::seq_lib::group_to_multiset_ensures;

    let ghost input = tags_view(tags@);
    let n = tags.len();
    let mut result: Vec<Tag> = Vec::new();
    assert(input.take(0) =~= Seq::<(Seq<u8>, Seq<u8>)>::empty());
    assert(tags_view(result@) =~= Seq::<(Seq<u8>, Seq<u8>)>::empty());
    for i in 0..n
        invariant
            n == tags@.len(),
            input == tags_view(tags@),
            sorted_by_key(tags_view(result@)),
            tags_view(result@).to_multiset() == input.take(i as int).to_multiset(),
            forall|k: Seq<u8>|
                #[trigger] with_key(tags_view(result@), k) == with_key(input.take(i as int), k),
    {
        let x = Tag { key: tags[i].key.clone(), value: tags[i].value.clone() };
        let ghost xv = tag_view(x);
        assert(xv == input[i as int]);
        let ghost rv = tags_view(result@);
        let mut p: usize = 0;
        while p < result.len() && !key_lt(&x.key, &result[p].key)
            invariant
                p <= result@.len(),
                rv == tags_view(result@),
                xv == tag_view(x),
                forall|q: int| 0 <= q < p ==> !lex_lt(xv.0, #[trigger] rv[q].0),
            decreases result@.len() - p,
        {
            p = p + 1;
        }
        proof {
            assert forall|j: int| p <= j < rv.len() implies lex_lt(xv.0, #[trigger] rv[j].0) by {
                assert(lex_lt(xv.0, rv[p as int].0));
                if j > p {
                    assert(!lex_lt(rv[j].0, rv[p as int].0));
                    lemma_lex_total(rv[j].0, rv[p as int].0);
                    if rv[j].0 != rv[p as int].0 {
                        lemma_lex_transitive(xv.0, rv[p as int].0, rv[j].0);
                    }
                }
            }
            assert forall|j: int| p <= j < rv.len() implies #[trigger] rv[j].0 != xv.0 by {
                if rv[j].0 == xv.0 {
                    lemma_lex_irreflexive(xv.0);
                }
            }
        }
        result.insert(p, x);
        proof {
            let nv = tags_view(result@);
            assert(nv =~= rv.insert(p as int, xv));
            assert forall|a: int, b: int| 0 <= a < b < nv.len() implies !lex_lt(
                #[trigger] nv[b].0,
                #[trigger] nv[a].0,
            ) by {
                if b < p {
                } else if b == p {
                } else if a < p {
                    assert(nv[b] == rv[b - 1]);
                } else if a == p {
                    assert(nv[b] == rv[b - 1]);
                    assert(lex_lt(xv.0, rv[b - 1].0));
                    if lex_lt(rv[b - 1].0, xv.0) {
                        lemma_lex_transitive(xv.0, rv[b - 1].0, xv.0);
                        lemma_lex_irreflexive(xv.0);
                    }
                } else {
                    assert(nv[a] == rv[a - 1] && nv[b] == rv[b - 1]);
                }
            }
            assert(input.take(i as int + 1) =~= input.take(i as int).push(xv));
            vstd::seq_lib::to_multiset_insert(rv, p as int, xv);
            vstd::seq_lib::to_multiset_build(input.take(i as int), xv);
            assert forall|k: Seq<u8>| #[trigger] with_key(nv, k) == with_key(
                input.take(i as int + 1),
                k,
            ) by {
                lemma_with_key_insert(rv, p as int, xv, k);
                input.take(i as int).lemma_filter_push(xv, |t: (Seq<u8>, Seq<u8>)| t.0 == k);
            }
        }
    }
    assert(input.take(n as int) =~= input);
    *tags = result;
}

impl Tag {
    pub fn new(key: TagKey, value: TagValue) -> (r: Self)
        ensures
            r == (Tag { key, value }),
    {
        Tag { key, value }
    }

    /// A tag from its flatbuffer form; both parts must be there.
    pub fn from_flatbuffers(tag: &FbTag) -> (r: Result<Self, ModelError>)
        ensures
            match (tag.key, tag.value) {
                (Some(k), Some(v)) => r matches Ok(t) && t.key@ == k@ && t.value@ == v@,
                (None, _) => r matches Err(ModelError::InvalidFlatbufferMessage { err }) && err@
                    == "Tag key cannot be empty"@,
                (Some(_), None) => r matches Err(ModelError::InvalidFlatbufferMessage { err })
                    && err@ == "Tag value cannot be emptyt"@,
            },
    {
        let key = match &tag.key {
            Some(k) => k.clone(),
            None => {
                return Err(
                    ModelError::InvalidFlatbufferMessage { err: "Tag key cannot be empty".to_owned() },
                )
            },
        };
        let value = match &tag.value {
            Some(v) => v.clone(),
            None => {
                return Err(
                    ModelError::InvalidFlatbufferMessage {
                        err: "Tag value cannot be emptyt".to_owned(),
                    },
                )
            },
        };
        Ok(Tag { key, value })
    }

    /// A key and value are both needed, within their length limits; the
    /// first failing check names itself.
    pub fn check(&self) -> (r: Result<(), ModelError>)
        ensures
            if self.key@.len() == 0 {
                r matches Err(ModelError::InvalidTag { err }) && err@ == "Tag key cannot be empty"@
            } else if self.value@.len() == 0 {
                r matches Err(ModelError::InvalidTag { err }) && err@
                    == "Tag value cannot be empty"@
            } else if self.key@.len() > TAG_KEY_MAX_LEN {
                r matches Err(ModelError::InvalidTag { err }) && err@
                    == "Tag key exceeds the TAG_KEY_MAX_LEN(512)"@
            } else if self.value@.len() > TAG_VALUE_MAX_LEN {
                r matches Err(ModelError::InvalidTag { err }) && err@
                    == "Tag value exceeds the TAG_VALUE_MAX_LEN(4096)"@
            } else {
                r is Ok
            },
    {
        if self.key.len() == 0 {
            return Err(ModelError::InvalidTag { err: "Tag key cannot be empty".to_owned() });
        }
        if self.value.len() == 0 {
            return Err(ModelError::InvalidTag { err: "Tag value cannot be empty".to_owned() });
        }
        if self.key.len() > TAG_KEY_MAX_LEN {
            return Err(
                ModelError::InvalidTag { err: "Tag key exceeds the TAG_KEY_MAX_LEN(512)".to_owned() },
            );
        }
        if self.value.len() > TAG_VALUE_MAX_LEN {
            return Err(
                ModelError::InvalidTag {
                    err: "Tag value exceeds the TAG_VALUE_MAX_LEN(4096)".to_owned(),
                },
            );
        }
        Ok(())
    }

    /// The key followed by the value.
    pub fn to_bytes(&self) -> (r: Vec<u8>)
        ensures
            r@ == self.key@ + self.value@,
    {
        let mut buf: Vec<u8> = Vec::new();
        let n = self.key.len();
        for i in 0..n
            invariant
                n == self.key@.len(),
                buf@ =~= self.key@.take(i as int),
        {
            buf.push(self.key[i]);
            assert(self.key@.take(i as int + 1) =~= self.key@.take(i as int).push(self.key@[i as int]));
        }
        assert(self.key@.take(n as int) =~= self.key@);
        let m = self.value.len();
        for j in 0..m
            invariant
                m == self.value@.len(),
                buf@ =~= self.key@ + self.value@.take(j as int),
        {
            buf.push(self.value[j]);
            assert(self.value@.take(j as int + 1) =~= self.value@.take(j as int).push(
                self.value@[j as int],
            ));
        }
        assert(self.value@.take(m as int) =~= self.value@);
        buf
    }
}

/// Building a tag from its parts.
pub trait TagFromParts<T1, T2>: Sized {
    fn from_parts(key: T1, value: T2) -> Self;
}

impl<'a, 'b> TagFromParts<&'a str, &'b str> for Tag {
    /// The UTF-8 bytes of the key and the value.
    fn from_parts(key: &'a str, value: &'b str) -> (r: Tag)
        ensures
            r.key@ == key.spec_bytes(),
            r.value@ == value.spec_bytes(),
    {
        Tag { key: vstd::slice::slice_to_vec(key.as_bytes()), value: vstd::slice::slice_to_vec(value.as_bytes()) }
    }
}

impl TagFromParts<TagKey, TagValue> for Tag {
    fn from_parts(key: TagKey, value: TagValue) -> (r: Tag)
        ensures
            r == (Tag { key, value }),
    {
        Tag { key, value }
    }
}

} // verus!
