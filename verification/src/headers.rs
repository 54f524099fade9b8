//! The request headers that trace extraction reads: a list of
//! (lower-case name, raw value) pairs, looked up by the first entry whose
//! name equals the lower-cased key, as an HTTP header map does.
use vstd::prelude::*;
use vstd::string::StringSliceAdditionalSpecFns;

verus! {

pub open spec fn lower_byte(b: u8) -> u8 {
    if 65 <= b <= 90 {
        (b + 32) as u8
    } else {
        b
    }
}

pub open spec fn ascii_lower(s: Seq<u8>) -> Seq<u8> {
    s.map_values(|b: u8| lower_byte(b))
}

/// Index of the first entry named `name`.
pub open spec fn first_index(e: Seq<(Seq<u8>, Seq<u8>)>, name: Seq<u8>) -> Option<int>
    decreases e.len(),
{
    if e.len() == 0 {
        None
    } else {
        match first_index(e.drop_last(), name) {
            Some(i) => Some(i),
            None => if e.last().0 == name {
                Some(e.len() - 1)
            } else {
                None
            },
        }
    }
}

/// The value of the first entry named `name`.
pub open spec fn header_lookup(e: Seq<(Seq<u8>, Seq<u8>)>, name: Seq<u8>) -> Option<Seq<u8>> {
    match first_index(e, name) {
        Some(i) => Some(e[i].1),
        None => None,
    }
}

pub proof fn lemma_first_index_facts(e: Seq<(Seq<u8>, Seq<u8>)>, name: Seq<u8>)
    ensures
        first_index(e, name) matches Some(i) ==> 0 <= i < e.len() && e[i].0 == name && forall|
            j: int,
        |
            0 <= j < i ==> e[j].0 != name,
        first_index(e, name) is None ==> forall|j: int| 0 <= j < e.len() ==> e[j].0 != name,
    decreases e.len(),
{
    if e.len() > 0 {
        let d = e.drop_last();
        lemma_first_index_facts(d, name);
        assert forall|j: int| 0 <= j < e.len() - 1 implies e[j] == #[trigger] d[j] by {}
        match first_index(d, name) {
            Some(i) => {
                assert forall|j: int| 0 <= j < i implies e[j].0 != name by {
                    assert(e[j] == d[j]);
                }
            },
            None => {
                assert forall|j: int| 0 <= j < e.len() - 1 implies e[j].0 != name by {
                    assert(e[j] == d[j]);
                }
            },
        }
    }
}

proof fn lemma_first_index_is(e: Seq<(Seq<u8>, Seq<u8>)>, name: Seq<u8>, i: int)
    requires
        0 <= i < e.len(),
        e[i].0 == name,
        forall|j: int| 0 <= j < i ==> e[j].0 != name,
    ensures
        first_index(e, name) == Some(i),
{
    lemma_first_index_facts(e, name);
    if let Some(k) = first_index(e, name) {
        if k < i {
            assert(e[k].0 != name);
        }
        if k > i {
            assert(e[i].0 != name);
        }
    }
}

proof fn lemma_first_index_none(e: Seq<(Seq<u8>, Seq<u8>)>, name: Seq<u8>)
    requires
        forall|j: int| 0 <= j < e.len() ==> e[j].0 != name,
    ensures
        first_index(e, name) is None,
{
    lemma_first_index_facts(e, name);
}

/// The entries after the value of `key` is set: the first entry of that
/// name gets the value, or a new entry comes last.
pub open spec fn inserted(e: Seq<(Seq<u8>, Seq<u8>)>, key: Seq<u8>, value: Seq<u8>) -> Seq<(Seq<u8>, Seq<u8>)> {
    match first_index(e, key) {
        Some(i) => e.update(i, (key, value)),
        None => e.push((key, value)),
    }
}

/// A lookup gives back the value last set under its key, and setting one
/// key leaves the lookups of every other key as they were.
pub proof fn lemma_insert_then_lookup(
    e: Seq<(Seq<u8>, Seq<u8>)>,
    key: Seq<u8>,
    value: Seq<u8>,
    other: Seq<u8>,
)
    ensures
        header_lookup(inserted(e, key, value), key) == Some(value),
        other != key ==> header_lookup(inserted(e, key, value), other) == header_lookup(e, other),
{
    lemma_first_index_facts(e, key);
    lemma_first_index_facts(e, other);
    let a = inserted(e, key, value);
    match first_index(e, key) {
        Some(i) => {
            lemma_first_index_is(a, key, i);
            if other != key {
                match first_index(e, other) {
                    Some(k) => {
                        assert(k != i);
                        lemma_first_index_is(a, other, k);
                    },
                    None => {
                        lemma_first_index_none(a, other);
                    },
                }
            }
        },
        None => {
            lemma_first_index_is(a, key, e.len() as int);
            if other != key {
                match first_index(e, other) {
                    Some(k) => {
                        lemma_first_index_is(a, other, k);
                    },
                    None => {
                        lemma_first_index_none(a, other);
                    },
                }
            }
        },
    }
}

proof fn lemma_first_index_prefix(e: Seq<(Seq<u8>, Seq<u8>)>, name: Seq<u8>, k: nat)
    requires
        k <= e.len(),
        first_index(e.take(k as int), name) is Some,
    ensures
        first_index(e, name) == first_index(e.take(k as int), name),
    decreases e.len() - k,
{
    if k < e.len() {
        assert(e.take(k as int + 1).drop_last() =~= e.take(k as int));
        lemma_first_index_prefix(e, name, k + 1 as nat);
    } else {
        assert(e.take(k as int) =~= e);
    }
}

/// An HTTP header map reduced to what the logic reads.
pub struct Headers {
    entries: Vec<(Vec<u8>, Vec<u8>)>,
}

pub open spec fn entry_view(e: (Vec<u8>, Vec<u8>)) -> (Seq<u8>, Seq<u8>) {
    (e.0@, e.1@)
}

impl View for Headers {
    type V = Seq<(Seq<u8>, Seq<u8>)>;

    closed spec fn view(&self) -> Seq<(Seq<u8>, Seq<u8>)> {
        self.entries@.map_values(|e: (Vec<u8>, Vec<u8>)| entry_view(e))
    }
}

/// The bytes of `s`, lower-cased in the ASCII range.
pub fn to_ascii_lower(s: &[u8]) -> (r: Vec<u8>)
    ensures
        r@ == ascii_lower(s@),
{
    let mut r: Vec<u8> = Vec::new();
    let n = s.len();
    for i in 0..n
        invariant
            n == s@.len(),
            r@ =~= ascii_lower(s@.take(i as int)),
    {
        let b = s[i];
        let c = if 65 <= b && b <= 90 {
            b + 32
        } else {
            b
        };
        r.push(c);
        assert(ascii_lower(s@.take(i as int + 1)) =~= ascii_lower(s@.take(i as int)).push(
            lower_byte(b),
        ));
    }
    assert(s@.take(n as int) =~= s@);
    r
}

fn bytes_eq(a: &Vec<u8>, b: &Vec<u8>) -> (r: bool)
    ensures
        r == (a@ == b@),
{
    if a.len() != b.len() {
        return false;
    }
    let n = a.len();
    for i in 0..n
        invariant
            n == a@.len(),
            n == b@.len(),
            forall|j: int| 0 <= j < i ==> a@[j] == b@[j],
    {
        if a[i] != b[i] {
            return false;
        }
    }
    assert(a@ =~= b@);
    true
}

impl Headers {
    /// An empty header map.
    pub fn new() -> (h: Headers)
        ensures
            h@ == Seq::<(Seq<u8>, Seq<u8>)>::empty(),
    {
        let h = Headers { entries: Vec::new() };
        assert(h@ =~= Seq::<(Seq<u8>, Seq<u8>)>::empty());
        h
    }

    fn find(&self, name: &Vec<u8>) -> (r: Option<usize>)
        ensures
            r matches Some(i) ==> first_index(self@, name@) == Some(i as int) && i
                < self.entries@.len() && self@[i as int] == entry_view(self.entries@[i as int]),
            self@.len() == self.entries@.len(),
            r is None ==> first_index(self@, name@) is None,
    {
        let n = self.entries.len();
        let ghost e = self@;
        assert(e.len() == n);
        for i in 0..n
            invariant
                n == self.entries@.len(),
                e == self@,
                first_index(e.take(i as int), name@) is None,
                e.len() == n,
        {
            assert(e.take(i as int + 1).drop_last() =~= e.take(i as int));
            assert(e[i as int] == entry_view(self.entries@[i as int]));
            assert(e.take(i as int + 1).last() == e[i as int]);
            if bytes_eq(&self.entries[i].0, name) {
                proof {
                    lemma_first_index_prefix(e, name@, (i + 1) as nat);
                }
                return Some(i);
            }
        }
        assert(e.take(n as int) =~= e);
        None
    }

    /// Sets the value of a header, replacing the first entry of that name
    /// or adding one at the end.
    pub fn insert(&mut self, name: &str, value: Vec<u8>)
        ensures
            final(self)@ == inserted(old(self)@, ascii_lower(name.spec_bytes()), value@),
    {
        let key = to_ascii_lower(name.as_bytes());
        match self.find(&key) {
            Some(i) => {
                let ghost before = self@;
                self.entries.set(i, (key, value));
                assert(self@ =~= before.update(i as int, (ascii_lower(name.spec_bytes()), value@)));
            },
            None => {
                let ghost before = self@;
                self.entries.push((key, value));
                assert(self@ =~= before.push((ascii_lower(name.spec_bytes()), value@)));
            },
        }
    }

    /// The value of the first entry whose name is `name` lower-cased.
    pub fn get(&self, name: &str) -> (r: Option<&Vec<u8>>)
        ensures
            match header_lookup(self@, ascii_lower(name.spec_bytes())) {
                Some(v) => r matches Some(x) && x@ == v,
                None => r is None,
            },
    {
        let key = to_ascii_lower(name.as_bytes());
        match self.find(&key) {
            Some(i) => Some(&self.entries[i].1),
            None => None,
        }
    }

    /// Whether some entry is named `name` lower-cased.
    pub fn contains_key(&self, name: &str) -> (r: bool)
        ensures
            r == header_lookup(self@, ascii_lower(name.spec_bytes())) is Some,
    {
        let key = to_ascii_lower(name.as_bytes());
        self.find(&key).is_some()
    }
}

/// A byte that an HTTP header value may hold as text: visible ASCII or tab.
pub open spec fn is_visible_ascii(b: u8) -> bool {
    (32 <= b && b < 127) || b == 9
}

pub open spec fn all_visible_ascii(s: Seq<u8>) -> bool {
    forall|i: int| 0 <= i < s.len() ==> is_visible_ascii(#[trigger] s[i])
}

/// Whether a header value converts to text (`HeaderValue::to_str` succeeds).
pub fn header_value_is_text(v: &[u8]) -> (r: bool)
    ensures
        r == all_visible_ascii(v@),
{
    let n = v.len();
    for i in 0..n
        invariant
            n == v@.len(),
            forall|j: int| 0 <= j < i ==> is_visible_ascii(#[trigger] v@[j]),
    {
        let b = v[i];
        if !((32 <= b && b < 127) || b == 9) {
            return false;
        }
    }
    true
}

/// `std::str::from_utf8`: the text whose UTF-8 encoding is `bytes`, if
/// they are valid UTF-8. ASCII bytes always are.
#[verifier::external_body]
pub(crate) fn str_from_utf8(bytes: &[u8]) -> (r: Option<&str>)
    ensures
        r is Some <==> vstd::utf8::valid_utf8(bytes@),
        r matches Some(s) ==> s.spec_bytes() == bytes@,
        (forall|i: int| 0 <= i < bytes@.len() ==> bytes@[i] < 128) ==> r is Some,
{
    std::str::from_utf8(bytes).ok()
}

} // verus!
