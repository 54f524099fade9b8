//! The formats in which query results are answered, chosen by the
//! request's `Accept` header.
use vstd::prelude::*;
use vstd::string::StrSliceExecFns;
use vstd::string::StringExecFns;

use crate::text::str_eq;

verus! {

pub const APPLICATION_PREFIX: &'static str = "application/";

pub const APPLICATION_STAR: &'static str = "application/*";

pub const STAR_STAR: &'static str = "*/*";

pub const APPLICATION_CSV: &'static str = "application/csv";

pub const APPLICATION_TSV: &'static str = "application/tsv";

pub const APPLICATION_JSON: &'static str = "application/json";

pub const APPLICATION_NDJSON: &'static str = "application/nd-json";

pub const APPLICATION_TABLE: &'static str = "application/table";

/// The formats in which records can be written out.
#[derive(Debug, PartialEq, Eq, Clone, Copy)]
pub enum ResultFormat {
    Csv,
    Tsv,
    Json,
    NdJson,
    Table,
}

/// Errors of the HTTP layer about a request's headers.
#[derive(Debug, Clone, PartialEq, Eq)]
pub enum HttpError {
    InvalidHeader { reason: String },
}

/// The name by which a format is chosen.
pub open spec fn format_name(f: ResultFormat) -> Seq<char> {
    match f {
        ResultFormat::Csv => "csv"@,
        ResultFormat::Tsv => "tsv"@,
        ResultFormat::Json => "json"@,
        ResultFormat::NdJson => "nd-json"@,
        ResultFormat::Table => "table"@,
    }
}

/// The content type of an answer in a format.
pub open spec fn content_type(f: ResultFormat) -> Seq<char> {
    match f {
        ResultFormat::Csv => APPLICATION_CSV@,
        ResultFormat::Tsv => APPLICATION_TSV@,
        ResultFormat::Json => APPLICATION_JSON@,
        ResultFormat::NdJson => APPLICATION_NDJSON@,
        ResultFormat::Table => APPLICATION_TABLE@,
    }
}

/// ASCII upper-case letters to lower case; other characters unchanged.
pub open spec fn ascii_lower_char(c: char) -> char {
    if 'A' <= c && c <= 'Z' {
        ((c as u32) + 32) as char
    } else {
        c
    }
}

/// Equal up to the case of ASCII letters.
pub open spec fn eq_ignore_ascii_case(a: Seq<char>, b: Seq<char>) -> bool {
    &&& a.len() == b.len()
    &&& forall|i: int| 0 <= i < a.len() ==> ascii_lower_char(#[trigger] a[i]) == ascii_lower_char(b[i])
}

/// The format whose name `s` is, whatever the case of its ASCII letters.
pub open spec fn format_named(s: Seq<char>) -> Option<ResultFormat> {
    if eq_ignore_ascii_case(s, format_name(ResultFormat::Csv)) {
        Some(ResultFormat::Csv)
    } else if eq_ignore_ascii_case(s, format_name(ResultFormat::Tsv)) {
        Some(ResultFormat::Tsv)
    } else if eq_ignore_ascii_case(s, format_name(ResultFormat::Json)) {
        Some(ResultFormat::Json)
    } else if eq_ignore_ascii_case(s, format_name(ResultFormat::NdJson)) {
        Some(ResultFormat::NdJson)
    } else if eq_ignore_ascii_case(s, format_name(ResultFormat::Table)) {
        Some(ResultFormat::Table)
    } else {
        None
    }
}

/// What an `Accept` header value chooses: no value, `application/*` or
/// `*/*` choose CSV; `application/` followed by a format's name chooses it;
/// any other value after `application/` is an invalid variant, and any
/// other value at all is not supported.
pub open spec fn accept_outcome(s: Seq<char>) -> Result<ResultFormat, Seq<char>> {
    if s.len() == 0 || s == APPLICATION_STAR@ || s == STAR_STAR@ {
        Ok(ResultFormat::Csv)
    } else if APPLICATION_PREFIX@.is_prefix_of(s) {
        let rest = s.skip(APPLICATION_PREFIX@.len() as int);
        match format_named(rest) {
            Some(f) => Ok(f),
            None => Err("invalid variant: "@ + rest),
        }
    } else {
        Err("accept type not support: "@ + s)
    }
}

fn lower_char(c: char) -> (r: char)
    ensures
        r == ascii_lower_char(c),
{
    if 'A' <= c && c <= 'Z' {
        let u: u8 = (c as u32 + 32) as u8;
        u as char
    } else {
        c
    }
}

/// Whether `a` and `b` are equal up to the case of ASCII letters.
pub fn str_eq_ignore_ascii_case(a: &str, b: &str) -> (r: bool)
    ensures
        r == eq_ignore_ascii_case(a@, b@),
{
    let n = a.unicode_len();
    let m = b.unicode_len();
    if n != m {
        return false;
    }
    let mut i: usize = 0;
    while i < n
        invariant
            n == a@.len(),
            m == b@.len(),
            n == m,
            i <= n,
            forall|j: int| 0 <= j < i ==> ascii_lower_char(#[trigger] a@[j]) == ascii_lower_char(b@[j]),
        decreases n - i,
    {
        let x = lower_char(a.get_char(i));
        let y = lower_char(b.get_char(i));
        if x != y {
            return false;
        }
        i = i + 1;
    }
    true
}

/// A format's own name chooses it, written in any case.
pub proof fn lemma_name_chooses_format(f: ResultFormat)
    ensures
        format_named(format_name(f)) == Some(f),
{
    reveal_strlit("csv");
    reveal_strlit("tsv");
    reveal_strlit("json");
    reveal_strlit("nd-json");
    reveal_strlit("table");
    let csv = format_name(ResultFormat::Csv);
    let tsv = format_name(ResultFormat::Tsv);
    let json = format_name(ResultFormat::Json);
    let ndjson = format_name(ResultFormat::NdJson);
    assert(ascii_lower_char(tsv[0]) != ascii_lower_char(csv[0]));
    assert(ascii_lower_char(json[0]) != ascii_lower_char(csv[0]));
    assert(ascii_lower_char(json[0]) != ascii_lower_char(tsv[0]));
    assert(eq_ignore_ascii_case(format_name(f), format_name(f)));
}

/// A name equal to a format's name up to the case of its ASCII letters
/// chooses that format, in any case it is written: `JSON`, `Json` and
/// `json` all choose JSON.
pub proof fn lemma_names_match_ignoring_case(f: ResultFormat, s: Seq<char>)
    requires
        eq_ignore_ascii_case(s, format_name(f)),
    ensures
        format_named(s) == Some(f),
{
    reveal_strlit("csv");
    reveal_strlit("tsv");
    reveal_strlit("json");
    reveal_strlit("nd-json");
    reveal_strlit("table");
    let csv = format_name(ResultFormat::Csv);
    let tsv = format_name(ResultFormat::Tsv);
    assert(ascii_lower_char(tsv[0]) != ascii_lower_char(csv[0]));
    assert forall|g: ResultFormat| g != f implies !eq_ignore_ascii_case(s, #[trigger] format_name(g)) by {
        if eq_ignore_ascii_case(s, format_name(g)) {
            assert(ascii_lower_char(s[0]) == ascii_lower_char(format_name(f)[0]));
            assert(ascii_lower_char(s[0]) == ascii_lower_char(format_name(g)[0]));
        }
    }
    assert(!eq_ignore_ascii_case(s, format_name(ResultFormat::Csv)) || f == ResultFormat::Csv);
    assert(!eq_ignore_ascii_case(s, format_name(ResultFormat::Tsv)) || f == ResultFormat::Tsv);
    assert(!eq_ignore_ascii_case(s, format_name(ResultFormat::Json)) || f == ResultFormat::Json);
    assert(!eq_ignore_ascii_case(s, format_name(ResultFormat::NdJson)) || f == ResultFormat::NdJson);
}

/// An `Accept` value of `application/` and a format's name, in any case,
/// chooses that format.
pub proof fn lemma_accept_ignores_case(f: ResultFormat, s: Seq<char>)
    requires
        eq_ignore_ascii_case(s, format_name(f)),
    ensures
        accept_outcome(APPLICATION_PREFIX@ + s) == Ok::<ResultFormat, Seq<char>>(f),
{
    reveal_strlit("application/");
    reveal_strlit("application/*");
    reveal_strlit("*/*");
    reveal_strlit("csv");
    reveal_strlit("tsv");
    reveal_strlit("json");
    reveal_strlit("nd-json");
    reveal_strlit("table");
    lemma_names_match_ignoring_case(f, s);
    let t = APPLICATION_PREFIX@ + s;
    assert(APPLICATION_PREFIX@.is_prefix_of(t));
    assert(t.skip(APPLICATION_PREFIX@.len() as int) =~= s);
    assert(t.len() != APPLICATION_STAR@.len());
    assert(t.len() != STAR_STAR@.len());
}

/// The content type of an answer, sent back as `Accept`, chooses the same
/// format again.
pub proof fn lemma_content_type_chooses_format(f: ResultFormat)
    ensures
        accept_outcome(content_type(f)) == Ok::<ResultFormat, Seq<char>>(f),
{
    reveal_strlit("application/");
    reveal_strlit("application/*");
    reveal_strlit("*/*");
    reveal_strlit("application/csv");
    reveal_strlit("application/tsv");
    reveal_strlit("application/json");
    reveal_strlit("application/nd-json");
    reveal_strlit("application/table");
    reveal_strlit("csv");
    reveal_strlit("tsv");
    reveal_strlit("json");
    reveal_strlit("nd-json");
    reveal_strlit("table");
    lemma_name_chooses_format(f);
    let s = content_type(f);
    assert(APPLICATION_PREFIX@.is_prefix_of(s));
    match f {
        ResultFormat::Csv => {
            assert(s =~= "application/"@ + "csv"@);
        },
        ResultFormat::Tsv => {
            assert(s =~= "application/"@ + "tsv"@);
        },
        ResultFormat::Json => {
            assert(s =~= "application/"@ + "json"@);
        },
        ResultFormat::NdJson => {
            assert(s =~= "application/"@ + "nd-json"@);
        },
        ResultFormat::Table => {
            assert(s =~= "application/"@ + "table"@);
        },
    }
    assert(s.skip(12) =~= format_name(f));
    assert(s != APPLICATION_STAR@);
    assert(s != STAR_STAR@);
}

impl ResultFormat {
    /// The content type of an answer in this format.
    pub fn get_http_content_type(&self) -> (r: &'static str)
        ensures
            r@ == content_type(*self),
    {
        match self {
            ResultFormat::Csv => APPLICATION_CSV,
            ResultFormat::Tsv => APPLICATION_TSV,
            ResultFormat::Json => APPLICATION_JSON,
            ResultFormat::NdJson => APPLICATION_NDJSON,
            ResultFormat::Table => APPLICATION_TABLE,
        }
    }

    /// The format named `s`, whatever the case of its ASCII letters.
    pub fn from_str(s: &str) -> (r: Result<ResultFormat, String>)
        ensures
            match format_named(s@) {
                Some(f) => r == Ok::<ResultFormat, String>(f),
                None => r matches Err(e) && e@ == "invalid variant: "@ + s@,
            },
    {
        if str_eq_ignore_ascii_case(s, "csv") {
            Ok(ResultFormat::Csv)
        } else if str_eq_ignore_ascii_case(s, "tsv") {
            Ok(ResultFormat::Tsv)
        } else if str_eq_ignore_ascii_case(s, "json") {
            Ok(ResultFormat::Json)
        } else if str_eq_ignore_ascii_case(s, "nd-json") {
            Ok(ResultFormat::NdJson)
        } else if str_eq_ignore_ascii_case(s, "table") {
            Ok(ResultFormat::Table)
        } else {
            let mut e = String::from_str("invalid variant: ");
            e.append(s);
            Err(e)
        }
    }

    /// The format that an `Accept` header value chooses.
    pub fn try_from(s: &str) -> (r: Result<ResultFormat, HttpError>)
        ensures
            match accept_outcome(s@) {
                Ok(f) => r == Ok::<ResultFormat, HttpError>(f),
                Err(m) => r matches Err(HttpError::InvalidHeader { reason }) && reason@ == m,
            },
    {
        let n = s.unicode_len();
        if n == 0 || str_eq(s, APPLICATION_STAR) || str_eq(s, STAR_STAR) {
            return Ok(ResultFormat::Csv);
        }
        proof {
            reveal_strlit("application/");
        }
        let p = APPLICATION_PREFIX.unicode_len();
        if p <= n && str_eq(s.substring_char(0, p), APPLICATION_PREFIX) {
            let rest = s.substring_char(p, n);
            proof {
                assert(APPLICATION_PREFIX@.is_prefix_of(s@) <== (s@.subrange(0, p as int)
                    == APPLICATION_PREFIX@));
                assert(s@.skip(p as int) =~= rest@);
            }
            return match ResultFormat::from_str(rest) {
                Ok(f) => Ok(f),
                Err(reason) => Err(HttpError::InvalidHeader { reason }),
            };
        }
        proof {
            if APPLICATION_PREFIX@.is_prefix_of(s@) {
                assert(s@.subrange(0, p as int) =~= APPLICATION_PREFIX@);
            }
        }
        let mut reason = String::from_str("accept type not support: ");
        reason.append(s);
        Err(HttpError::InvalidHeader { reason })
    }
}

} // verus!
