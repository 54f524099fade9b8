//! The connection options of an external location (`s3://`, `gcs://`,
//! `azblob://` or a local path), read from the options of a statement.
//! Each option is given by its normalized name and the value written for
//! it; an unknown name, or a value of the wrong kind, is refused.
use vstd::prelude::*;

use crate::planner::QueryError;
use crate::text::str_eq;

verus! {

/// The scheme of a location's URL.
#[derive(Debug, Clone, PartialEq, Eq)]
pub enum UriSchema {
    Local,
    S3,
    Gcs,
    Azblob,
    Custom(String),
}

/// The value written for an option: a string or a boolean.
#[derive(Debug, Clone, PartialEq, Eq)]
pub enum OptionValue {
    Str(String),
    Bool(bool),
}

/// An object store that takes a bucket and options.
#[derive(Debug, Clone, Copy, PartialEq, Eq, Structural)]
pub enum StoreKind {
    S3,
    Gcs,
    Azblob,
}

#[derive(Debug, Clone, PartialEq, Eq)]
pub struct S3StorageConfig {
    pub bucket: String,
    pub endpoint_url: Option<String>,
    pub region: Option<String>,
    pub access_key_id: Option<String>,
    pub secret_access_key: Option<String>,
    pub security_token: Option<String>,
    pub virtual_hosted_style_request: Option<bool>,
}

/// A bucket of Google Cloud Storage and the service account's settings;
/// the caller writes them to the credentials file the client reads.
#[derive(Debug, Clone, PartialEq, Eq)]
pub struct GcsStorageConfig {
    pub bucket: String,
    pub gcs_base_url: Option<String>,
    pub disable_oauth: Option<bool>,
    pub client_email: Option<String>,
    pub private_key: Option<String>,
}

#[derive(Debug, Clone, PartialEq, Eq)]
pub struct AzblobStorageConfig {
    pub container_name: String,
    pub account_name: Option<String>,
    pub access_key: Option<String>,
    pub bearer_token: Option<String>,
    pub use_emulator: Option<bool>,
}

#[derive(Debug, Clone, PartialEq, Eq)]
pub enum ConnectionOptions {
    S3(S3StorageConfig),
    Gcs(GcsStorageConfig),
    Azblob(AzblobStorageConfig),
    Local,
}

/// Where an option of a store goes among its settings, and whether it
/// takes a boolean; `None` for a name the store does not know.
pub open spec fn slot_of(kind: StoreKind, name: Seq<char>) -> Option<(int, bool)> {
    match kind {
        StoreKind::S3 => if name == "endpoint_url"@ {
            Some((0, false))
        } else if name == "region"@ {
            Some((1, false))
        } else if name == "access_key_id"@ {
            Some((2, false))
        } else if name == "secret_key"@ {
            Some((3, false))
        } else if name == "token"@ {
            Some((4, false))
        } else if name == "virtual_hosted_style"@ {
            Some((5, true))
        } else {
            None
        },
        StoreKind::Gcs => if name == "gcs_base_url"@ {
            Some((0, false))
        } else if name == "disable_oauth"@ {
            Some((1, true))
        } else if name == "client_email"@ {
            Some((2, false))
        } else if name == "private_key"@ {
            Some((3, false))
        } else {
            None
        },
        StoreKind::Azblob => if name == "account"@ {
            Some((0, false))
        } else if name == "access_key"@ {
            Some((1, false))
        } else if name == "bearer_token"@ {
            Some((2, false))
        } else if name == "use_emulator"@ {
            Some((3, true))
        } else {
            None
        },
    }
}

/// How many settings a store has.
pub open spec fn slot_count(kind: StoreKind) -> nat {
    match kind {
        StoreKind::S3 => 6,
        _ => 4,
    }
}

pub open spec fn unsupported_message(name: Seq<char>) -> Seq<char> {
    "Unsupported option ["@ + name + "]"@
}

/// The refusal of a value of the wrong kind for an option.
pub open spec fn kind_message(name: Seq<char>, wants_bool: bool) -> Seq<char> {
    if wants_bool {
        "Expected a boolean value for option ["@ + name + "]"@
    } else {
        "Expected a string value for option ["@ + name + "]"@
    }
}

/// The settings after one more option, or why it is refused.
pub open spec fn option_step(kind: StoreKind, s: Seq<Option<OptionValue>>, o: (String, OptionValue)) -> Result<
    Seq<Option<OptionValue>>,
    Seq<char>,
> {
    match slot_of(kind, o.0@) {
        None => Err(unsupported_message(o.0@)),
        Some((i, wants_bool)) => if (o.1 is Bool) == wants_bool {
            Ok(s.update(i, Some(o.1)))
        } else {
            Err(kind_message(o.0@, wants_bool))
        },
    }
}

/// The settings after the options in turn, from `s`; the first refused
/// option decides the error.
pub open spec fn apply_options(kind: StoreKind, s: Seq<Option<OptionValue>>, opts: Seq<(String, OptionValue)>) -> Result<
    Seq<Option<OptionValue>>,
    Seq<char>,
>
    decreases opts.len(),
{
    if opts.len() == 0 {
        Ok(s)
    } else {
        match apply_options(kind, s, opts.drop_last()) {
            Err(e) => Err(e),
            Ok(t) => option_step(kind, t, opts.last()),
        }
    }
}

/// No setting is given yet.
pub open spec fn unset(kind: StoreKind) -> Seq<Option<OptionValue>> {
    Seq::new(slot_count(kind), |i: int| None::<OptionValue>)
}

pub open spec fn text_setting(v: Option<String>) -> Option<OptionValue> {
    match v {
        Some(s) => Some(OptionValue::Str(s)),
        None => None,
    }
}

pub open spec fn flag_setting(v: Option<bool>) -> Option<OptionValue> {
    match v {
        Some(b) => Some(OptionValue::Bool(b)),
        None => None,
    }
}

/// A store's connection as values: its kind, its bucket (or container)
/// and its settings in the order `slot_of` gives them.
pub open spec fn connection_view(c: ConnectionOptions) -> Option<(StoreKind, Seq<char>, Seq<Option<OptionValue>>)> {
    match c {
        ConnectionOptions::S3(x) => Some(
            (
                StoreKind::S3,
                x.bucket@,
                seq![
                    text_setting(x.endpoint_url),
                    text_setting(x.region),
                    text_setting(x.access_key_id),
                    text_setting(x.secret_access_key),
                    text_setting(x.security_token),
                    flag_setting(x.virtual_hosted_style_request),
                ],
            ),
        ),
        ConnectionOptions::Gcs(x) => Some(
            (
                StoreKind::Gcs,
                x.bucket@,
                seq![
                    text_setting(x.gcs_base_url),
                    flag_setting(x.disable_oauth),
                    text_setting(x.client_email),
                    text_setting(x.private_key),
                ],
            ),
        ),
        ConnectionOptions::Azblob(x) => Some(
            (
                StoreKind::Azblob,
                x.container_name@,
                seq![
                    text_setting(x.account_name),
                    text_setting(x.access_key),
                    text_setting(x.bearer_token),
                    flag_setting(x.use_emulator),
                ],
            ),
        ),
        ConnectionOptions::Local => None,
    }
}

/// Whether the setting at `i` of a store takes a boolean.
pub open spec fn takes_bool(kind: StoreKind, i: int) -> bool {
    match kind {
        StoreKind::S3 => i == 5,
        StoreKind::Gcs => i == 1,
        StoreKind::Azblob => i == 3,
    }
}

/// The value last given for the option `name`, if any.
pub open spec fn last_given(opts: Seq<(String, OptionValue)>, name: Seq<char>) -> Option<OptionValue>
    decreases opts.len(),
{
    if opts.len() == 0 {
        None
    } else if opts.last().0@ == name {
        Some(opts.last().1)
    } else {
        last_given(opts.drop_last(), name)
    }
}

/// Each option of a connection sets the field of the same name, to the
/// value given for it last; an option not given leaves its field unset.
pub open spec fn fields_match(c: ConnectionOptions, opts: Seq<(String, OptionValue)>) -> bool {
    match c {
        ConnectionOptions::S3(x) => {
            &&& text_setting(x.endpoint_url) == last_given(opts, "endpoint_url"@)
            &&& text_setting(x.region) == last_given(opts, "region"@)
            &&& text_setting(x.access_key_id) == last_given(opts, "access_key_id"@)
            &&& text_setting(x.secret_access_key) == last_given(opts, "secret_key"@)
            &&& text_setting(x.security_token) == last_given(opts, "token"@)
            &&& flag_setting(x.virtual_hosted_style_request) == last_given(opts, "virtual_hosted_style"@)
        },
        ConnectionOptions::Gcs(x) => {
            &&& text_setting(x.gcs_base_url) == last_given(opts, "gcs_base_url"@)
            &&& flag_setting(x.disable_oauth) == last_given(opts, "disable_oauth"@)
            &&& text_setting(x.client_email) == last_given(opts, "client_email"@)
            &&& text_setting(x.private_key) == last_given(opts, "private_key"@)
        },
        ConnectionOptions::Azblob(x) => {
            &&& text_setting(x.account_name) == last_given(opts, "account"@)
            &&& text_setting(x.access_key) == last_given(opts, "access_key"@)
            &&& text_setting(x.bearer_token) == last_given(opts, "bearer_token"@)
            &&& flag_setting(x.use_emulator) == last_given(opts, "use_emulator"@)
        },
        ConnectionOptions::Local => true,
    }
}

/// The setting an option goes to; -1 for a name the store does not know.
pub open spec fn slot_index(kind: StoreKind, name: Seq<char>) -> int {
    match slot_of(kind, name) {
        Some((i, _)) => i,
        None => -1,
    }
}

/// Two names that a store places at one setting are the same name.
proof fn lemma_slot_names_distinct(kind: StoreKind, n1: Seq<char>, n2: Seq<char>)
    requires
        slot_of(kind, n1) is Some,
        slot_of(kind, n2) is Some,
        slot_index(kind, n1) == slot_index(kind, n2),
    ensures
        n1 == n2,
{
}

/// Accepted options leave at each option's setting the value given for it
/// last, and nothing where it was not given.
proof fn lemma_settings_are_last_given(kind: StoreKind, opts: Seq<(String, OptionValue)>, s: Seq<Option<OptionValue>>)
    requires
        apply_options(kind, unset(kind), opts) == Ok::<Seq<Option<OptionValue>>, Seq<char>>(s),
    ensures
        s.len() == slot_count(kind),
        forall|n: Seq<char>|
            #[trigger] slot_of(kind, n) is Some ==> 0 <= slot_index(kind, n) < s.len() && s[slot_index(kind, n)] == last_given(opts, n),
    decreases opts.len(),
{
    if opts.len() == 0 {
        assert forall|n: Seq<char>| #[trigger] slot_of(kind, n) is Some implies 0 <= slot_index(kind, n)
            < s.len() && s[slot_index(kind, n)] == last_given(opts, n) by {}
    } else {
        let t = match apply_options(kind, unset(kind), opts.drop_last()) {
            Ok(t) => t,
            Err(_) => s,
        };
        assert(apply_options(kind, unset(kind), opts.drop_last()) is Ok);
        lemma_settings_are_last_given(kind, opts.drop_last(), t);
        let o = opts.last();
        let i0 = slot_index(kind, o.0@);
        assert(s == t.update(i0, Some(o.1)));
        assert forall|n: Seq<char>| #[trigger] slot_of(kind, n) is Some implies 0 <= slot_index(kind, n)
            < s.len() && s[slot_index(kind, n)] == last_given(opts, n) by {
            if n != o.0@ {
                if slot_index(kind, n) == i0 {
                    lemma_slot_names_distinct(kind, n, o.0@);
                }
            }
        }
    }
}

/// What the options of an accepted connection come to: each option sets
/// the field of its own name to the value given for it last.
pub proof fn lemma_options_fill_their_fields(
    kind: StoreKind,
    opts: Seq<(String, OptionValue)>,
    s: Seq<Option<OptionValue>>,
    c: ConnectionOptions,
    bucket: Seq<char>,
)
    requires
        apply_options(kind, unset(kind), opts) == Ok::<Seq<Option<OptionValue>>, Seq<char>>(s),
        connection_view(c) == Some((kind, bucket, s)),
    ensures
        fields_match(c, opts),
{
    reveal_strlit("endpoint_url");
    reveal_strlit("region");
    reveal_strlit("access_key_id");
    reveal_strlit("secret_key");
    reveal_strlit("token");
    reveal_strlit("virtual_hosted_style");
    reveal_strlit("gcs_base_url");
    reveal_strlit("disable_oauth");
    reveal_strlit("client_email");
    reveal_strlit("private_key");
    reveal_strlit("account");
    reveal_strlit("access_key");
    reveal_strlit("bearer_token");
    reveal_strlit("use_emulator");
    lemma_settings_are_last_given(kind, opts, s);
    match c {
        ConnectionOptions::S3(x) => {
            assert(kind == StoreKind::S3);
            assert("region"@[0] != "endpoint_url"@[0]);
            assert("access_key_id"@[0] != "endpoint_url"@[0] && "access_key_id"@[0] != "region"@[0]);
            assert("secret_key"@[0] != "endpoint_url"@[0] && "secret_key"@[0] != "region"@[0]
                && "secret_key"@[0] != "access_key_id"@[0]);
            assert("token"@[0] != "endpoint_url"@[0] && "token"@[0] != "region"@[0] && "token"@[0]
                != "access_key_id"@[0] && "token"@[0] != "secret_key"@[0]);
            assert("virtual_hosted_style"@[0] != "endpoint_url"@[0] && "virtual_hosted_style"@[0]
                != "region"@[0] && "virtual_hosted_style"@[0] != "access_key_id"@[0]
                && "virtual_hosted_style"@[0] != "secret_key"@[0] && "virtual_hosted_style"@[0]
                != "token"@[0]);
            assert(slot_of(kind, "endpoint_url"@) == Some((0int, false)));
            assert(slot_of(kind, "region"@) == Some((1int, false)));
            assert(slot_of(kind, "access_key_id"@) == Some((2int, false)));
            assert(slot_of(kind, "secret_key"@) == Some((3int, false)));
            assert(slot_of(kind, "token"@) == Some((4int, false)));
            assert(slot_of(kind, "virtual_hosted_style"@) == Some((5int, true)));
            assert(s[0] == text_setting(x.endpoint_url));
        },
        ConnectionOptions::Gcs(x) => {
            assert(kind == StoreKind::Gcs);
            assert("disable_oauth"@[0] != "gcs_base_url"@[0]);
            assert("client_email"@[0] != "gcs_base_url"@[0] && "client_email"@[0] != "disable_oauth"@[0]);
            assert("private_key"@[0] != "gcs_base_url"@[0] && "private_key"@[0] != "disable_oauth"@[0]
                && "private_key"@[0] != "client_email"@[0]);
            assert(slot_of(kind, "gcs_base_url"@) == Some((0int, false)));
            assert(slot_of(kind, "disable_oauth"@) == Some((1int, true)));
            assert(slot_of(kind, "client_email"@) == Some((2int, false)));
            assert(slot_of(kind, "private_key"@) == Some((3int, false)));
            assert(s[0] == text_setting(x.gcs_base_url));
        },
        ConnectionOptions::Azblob(x) => {
            assert(kind == StoreKind::Azblob);
            assert("access_key"@[3] != "account"@[3]);
            assert("bearer_token"@[0] != "account"@[0] && "bearer_token"@[0] != "access_key"@[0]);
            assert("use_emulator"@[0] != "account"@[0] && "use_emulator"@[0] != "access_key"@[0]
                && "use_emulator"@[0] != "bearer_token"@[0]);
            assert(slot_of(kind, "account"@) == Some((0int, false)));
            assert(slot_of(kind, "access_key"@) == Some((1int, false)));
            assert(slot_of(kind, "bearer_token"@) == Some((2int, false)));
            assert(slot_of(kind, "use_emulator"@) == Some((3int, true)));
            assert(s[0] == text_setting(x.account_name));
        },
        ConnectionOptions::Local => {},
    }
}

/// Every setting holds a value of the kind its option takes.
pub open spec fn kinds_match(kind: StoreKind, s: Seq<Option<OptionValue>>) -> bool {
    &&& s.len() == slot_count(kind)
    &&& forall|i: int|
        0 <= i < s.len() ==> (#[trigger] s[i] matches Some(v) ==> (v is Bool) == takes_bool(kind, i))
}

fn clone_value(v: &OptionValue) -> (r: OptionValue)
    ensures
        r == *v,
{
    match v {
        OptionValue::Str(s) => OptionValue::Str(s.clone()),
        OptionValue::Bool(b) => OptionValue::Bool(*b),
    }
}

fn slot(kind: StoreKind, name: &str) -> (r: Option<(usize, bool)>)
    ensures
        match slot_of(kind, name@) {
            Some((i, b)) => r == Some((i as usize, b)),
            None => r is None,
        },
{
    proof {
        reveal_strlit("endpoint_url");
        reveal_strlit("region");
        reveal_strlit("access_key_id");
        reveal_strlit("secret_key");
        reveal_strlit("token");
        reveal_strlit("virtual_hosted_style");
        reveal_strlit("gcs_base_url");
        reveal_strlit("disable_oauth");
        reveal_strlit("client_email");
        reveal_strlit("private_key");
        reveal_strlit("account");
        reveal_strlit("access_key");
        reveal_strlit("bearer_token");
        reveal_strlit("use_emulator");
    }
    match kind {
        StoreKind::S3 => if str_eq(name, "endpoint_url") {
            Some((0, false))
        } else if str_eq(name, "region") {
            Some((1, false))
        } else if str_eq(name, "access_key_id") {
            Some((2, false))
        } else if str_eq(name, "secret_key") {
            Some((3, false))
        } else if str_eq(name, "token") {
            Some((4, false))
        } else if str_eq(name, "virtual_hosted_style") {
            Some((5, true))
        } else {
            None
        },
        StoreKind::Gcs => if str_eq(name, "gcs_base_url") {
            Some((0, false))
        } else if str_eq(name, "disable_oauth") {
            Some((1, true))
        } else if str_eq(name, "client_email") {
            Some((2, false))
        } else if str_eq(name, "private_key") {
            Some((3, false))
        } else {
            None
        },
        StoreKind::Azblob => if str_eq(name, "account") {
            Some((0, false))
        } else if str_eq(name, "access_key") {
            Some((1, false))
        } else if str_eq(name, "bearer_token") {
            Some((2, false))
        } else if str_eq(name, "use_emulator") {
            Some((3, true))
        } else {
            None
        },
    }
}

fn message(prefix: &str, name: &str) -> (r: String)
    ensures
        r@ == prefix@ + name@ + "]"@,
{
    let mut s = String::new();
    s.append(prefix);
    s.append(name);
    s.append("]");
    s
}

/// Once the options up to some point are refused, all of them are, with
/// the same error.
proof fn lemma_refusal_stays(kind: StoreKind, s: Seq<Option<OptionValue>>, opts: Seq<(String, OptionValue)>, k: int, e: Seq<char>)
    requires
        0 <= k <= opts.len(),
        apply_options(kind, s, opts.take(k)) == Err::<Seq<Option<OptionValue>>, Seq<char>>(e),
    ensures
        apply_options(kind, s, opts) == Err::<Seq<Option<OptionValue>>, Seq<char>>(e),
    decreases opts.len() - k,
{
    if k < opts.len() {
        assert(opts.take(k + 1).drop_last() =~= opts.take(k));
        lemma_refusal_stays(kind, s, opts, k + 1, e);
    } else {
        assert(opts.take(k) =~= opts);
    }
}

/// The settings of a store from its options, each given by its normalized
/// name and its value.
pub fn store_settings(kind: StoreKind, options: &Vec<(String, OptionValue)>) -> (r: Result<Vec<Option<OptionValue>>, String>)
    ensures
        match apply_options(kind, unset(kind), options@) {
            Ok(s) => r matches Ok(v) && v@ == s && kinds_match(kind, s),
            Err(e) => r matches Err(m) && m@ == e,
        },
{
    let count: usize = match kind {
        StoreKind::S3 => 6,
        _ => 4,
    };
    let mut slots: Vec<Option<OptionValue>> = Vec::new();
    let mut j: usize = 0;
    while j < count
        invariant
            j <= count,
            count == slot_count(kind),
            slots@ == Seq::new(j as nat, |i: int| None::<OptionValue>),
        decreases count - j,
    {
        slots.push(None);
        j = j + 1;
        assert(slots@ =~= Seq::new(j as nat, |i: int| None::<OptionValue>));
    }
    assert(slots@ =~= unset(kind));
    assert(options@.take(0) =~= Seq::<(String, OptionValue)>::empty());
    let n = options.len();
    let mut k: usize = 0;
    while k < n
        invariant
            n == options@.len(),
            k <= n,
            apply_options(kind, unset(kind), options@.take(k as int)) == Ok::<
                Seq<Option<OptionValue>>,
                Seq<char>,
            >(slots@),
            kinds_match(kind, slots@),
        decreases n - k,
    {
        let name = &options[k].0;
        let value = &options[k].1;
        proof {
            assert(options@.take(k as int + 1).drop_last() =~= options@.take(k as int));
            assert(options@.take(k as int + 1).last() == options@[k as int]);
        }
        match slot(kind, name.as_str()) {
            None => {
                let m = message("Unsupported option [", name.as_str());
                proof {
                    reveal_strlit("Unsupported option [");
                    lemma_refusal_stays(kind, unset(kind), options@, k as int + 1, m@);
                }
                return Err(m);
            },
            Some((i, wants_bool)) => {
                let is_bool = match value {
                    OptionValue::Bool(_) => true,
                    OptionValue::Str(_) => false,
                };
                if is_bool != wants_bool {
                    let m = if wants_bool {
                        message("Expected a boolean value for option [", name.as_str())
                    } else {
                        message("Expected a string value for option [", name.as_str())
                    };
                    proof {
                        reveal_strlit("Expected a boolean value for option [");
                        reveal_strlit("Expected a string value for option [");
                        lemma_refusal_stays(kind, unset(kind), options@, k as int + 1, m@);
                    }
                    return Err(m);
                }
                let v = clone_value(value);
                slots.set(i, Some(v));
                proof {
                    assert(takes_bool(kind, i as int) == wants_bool);
                }
            },
        }
        k = k + 1;
    }
    proof {
        assert(options@.take(n as int) =~= options@);
    }
    Ok(slots)
}

fn text_of(v: &Option<OptionValue>) -> (r: Option<String>)
    ensures
        v matches Some(OptionValue::Bool(_)) ==> r is None,
        !(v matches Some(OptionValue::Bool(_))) ==> text_setting(r) == *v,
{
    match v {
        Some(OptionValue::Str(s)) => Some(s.clone()),
        _ => None,
    }
}

fn flag_of(v: &Option<OptionValue>) -> (r: Option<bool>)
    ensures
        !(v matches Some(OptionValue::Str(_))) ==> flag_setting(r) == *v,
{
    match v {
        Some(OptionValue::Bool(b)) => Some(*b),
        _ => None,
    }
}

/// The connection options of a location: a local path takes none; an
/// object store needs a bucket and takes the options it knows; another
/// scheme is refused.
pub fn parse_connection_options(url: &UriSchema, bucket: Option<&str>, options: Vec<(String, OptionValue)>) -> (r:
    Result<ConnectionOptions, QueryError>)
    ensures
        match url {
            UriSchema::Custom(schema) => r matches Err(QueryError::Semantic { err }) && err@
                == "Unsupported url schema ["@ + schema@ + "]"@,
            UriSchema::Local => r matches Ok(ConnectionOptions::Local),
            _ => {
                let kind = match url {
                    UriSchema::S3 => StoreKind::S3,
                    UriSchema::Gcs => StoreKind::Gcs,
                    _ => StoreKind::Azblob,
                };
                match bucket {
                    None => r matches Err(QueryError::Semantic { err }) && err@ == "Lost bucket in url"@,
                    Some(b) => match apply_options(kind, unset(kind), options@) {
                        Ok(s) => r matches Ok(c) && connection_view(c) == Some((kind, b@, s)) && fields_match(
                            c,
                            options@,
                        ),
                        Err(e) => r matches Err(QueryError::Semantic { err }) && err@ == e,
                    },
                }
            },
        },
{
    let kind = match url {
        UriSchema::Custom(schema) => {
            return Err(QueryError::Semantic { err: message("Unsupported url schema [", schema.as_str()) });
        },
        UriSchema::Local => {
            return Ok(ConnectionOptions::Local);
        },
        UriSchema::S3 => StoreKind::S3,
        UriSchema::Gcs => StoreKind::Gcs,
        UriSchema::Azblob => StoreKind::Azblob,
    };
    let b = match bucket {
        Some(b) => b,
        None => {
            return Err(QueryError::Semantic { err: "Lost bucket in url".to_owned() });
        },
    };
    let s = match store_settings(kind, &options) {
        Ok(s) => s,
        Err(e) => {
            return Err(QueryError::Semantic { err: e });
        },
    };
    let ghost sv = s@;
    match kind {
        StoreKind::S3 => {
            let c = S3StorageConfig {
                bucket: b.to_owned(),
                endpoint_url: text_of(&s[0]),
                region: text_of(&s[1]),
                access_key_id: text_of(&s[2]),
                secret_access_key: text_of(&s[3]),
                security_token: text_of(&s[4]),
                virtual_hosted_style_request: flag_of(&s[5]),
            };
            proof {
                assert(connection_view(ConnectionOptions::S3(c)).unwrap().2 =~= sv);
                lemma_options_fill_their_fields(kind, options@, sv, ConnectionOptions::S3(c), b@);
            }
            Ok(ConnectionOptions::S3(c))
        },
        StoreKind::Gcs => {
            let c = GcsStorageConfig {
                bucket: b.to_owned(),
                gcs_base_url: text_of(&s[0]),
                disable_oauth: flag_of(&s[1]),
                client_email: text_of(&s[2]),
                private_key: text_of(&s[3]),
            };
            proof {
                assert(connection_view(ConnectionOptions::Gcs(c)).unwrap().2 =~= sv);
                lemma_options_fill_their_fields(kind, options@, sv, ConnectionOptions::Gcs(c), b@);
            }
            Ok(ConnectionOptions::Gcs(c))
        },
        StoreKind::Azblob => {
            let c = AzblobStorageConfig {
                container_name: b.to_owned(),
                account_name: text_of(&s[0]),
                access_key: text_of(&s[1]),
                bearer_token: text_of(&s[2]),
                use_emulator: flag_of(&s[3]),
            };
            proof {
                assert(connection_view(ConnectionOptions::Azblob(c)).unwrap().2 =~= sv);
                lemma_options_fill_their_fields(kind, options@, sv, ConnectionOptions::Azblob(c), b@);
            }
            Ok(ConnectionOptions::Azblob(c))
        },
    }
}

} // verus!
