//! Server configuration sections: their defaults, their checks, and how
//! values taken from the environment override them.
use vstd::prelude::*;

use crate::user::opt_view;

verus! {

/// One finding of a configuration check: the section, the item and a message.
#[derive(Debug, Clone)]
pub struct CheckConfigItemResult {
    pub config: String,
    pub item: String,
    pub message: String,
}

pub open spec fn item_view(i: CheckConfigItemResult) -> (Seq<char>, Seq<char>, Seq<char>) {
    (i.config@, i.item@, i.message@)
}

pub open spec fn items_view(s: Seq<CheckConfigItemResult>) -> Seq<(Seq<char>, Seq<char>, Seq<char>)> {
    s.map_values(|i: CheckConfigItemResult| item_view(i))
}

/// The warnings and errors that a configuration check found.
#[derive(Debug)]
pub struct CheckConfigResult {
    warnings: Vec<CheckConfigItemResult>,
    errors: Vec<CheckConfigItemResult>,
}

/// A finding, as values.
pub type ItemV = (Seq<char>, Seq<char>, Seq<char>);

impl View for CheckConfigResult {
    type V = (Seq<ItemV>, Seq<ItemV>);

    /// The warnings, then the errors, each in the order they were added.
    closed spec fn view(&self) -> (Seq<ItemV>, Seq<ItemV>) {
        (items_view(self.warnings@), items_view(self.errors@))
    }
}

pub open spec fn item_of(config: &str, item: &str, message: &str) -> ItemV {
    (config@, item@, message@)
}

fn make_item(config: &str, item: &str, message: &str) -> (r: CheckConfigItemResult)
    ensures
        item_view(r) == item_of(config, item, message),
{
    CheckConfigItemResult {
        config: config.to_owned(),
        item: item.to_owned(),
        message: message.to_owned(),
    }
}

impl CheckConfigResult {
    pub fn new() -> (r: Self)
        ensures
            r@ == (Seq::<ItemV>::empty(), Seq::<ItemV>::empty()),
    {
        let r = CheckConfigResult { warnings: Vec::new(), errors: Vec::new() };
        assert(items_view(r.warnings@) =~= Seq::<ItemV>::empty());
        assert(items_view(r.errors@) =~= Seq::<ItemV>::empty());
        r
    }

    pub fn add_warn(&mut self, item: CheckConfigItemResult)
        ensures
            final(self)@ == (old(self)@.0.push(item_view(item)), old(self)@.1),
    {
        self.warnings.push(item);
        assert(items_view(self.warnings@) =~= items_view(old(self).warnings@).push(item_view(item)));
    }

    pub fn add_error(&mut self, item: CheckConfigItemResult)
        ensures
            final(self)@ == (old(self)@.0, old(self)@.1.push(item_view(item))),
    {
        self.errors.push(item);
        assert(items_view(self.errors@) =~= items_view(old(self).errors@).push(item_view(item)));
    }

    /// Adds the findings of `other` after those already here.
    pub fn add_all(&mut self, other: CheckConfigResult)
        ensures
            final(self)@ == (old(self)@.0 + other@.0, old(self)@.1 + other@.1),
    {
        let mut other = other;
        let ghost o = other;
        self.warnings.append(&mut other.warnings);
        self.errors.append(&mut other.errors);
        assert(items_view(self.warnings@) =~= items_view(old(self).warnings@) + items_view(o.warnings@));
        assert(items_view(self.errors@) =~= items_view(old(self).errors@) + items_view(o.errors@));
    }

    pub fn is_empty(&self) -> (r: bool)
        ensures
            r == (self@.0.len() == 0 && self@.1.len() == 0),
    {
        self.warnings.len() == 0 && self.errors.len() == 0
    }

    /// The warnings, as values.
    pub fn warnings(&self) -> (r: &Vec<CheckConfigItemResult>)
        ensures
            items_view(r@) == self@.0,
    {
        &self.warnings
    }

    /// The errors, as values.
    pub fn errors(&self) -> (r: &Vec<CheckConfigItemResult>)
        ensures
            items_view(r@) == self@.1,
    {
        &self.errors
    }
}

/// Hinted handoff: writes kept for a node that could not take them.
#[derive(Debug, Clone, PartialEq, Eq)]
pub struct HintedOffConfig {
    pub enable: bool,
    pub path: String,
    pub threads: i32,
}

impl HintedOffConfig {
    pub fn default_enable() -> (r: bool)
        ensures
            r,
    {
        true
    }

    pub fn default_path() -> (r: String)
        ensures
            r@ == "/var/lib/cnosdb/hh"@,
    {
        "/var/lib/cnosdb/hh".to_owned()
    }

    pub fn default_threads() -> (r: i32)
        ensures
            r == 3,
    {
        3
    }

    /// Each value given replaces the one configured.
    pub fn override_with(&mut self, enable: Option<bool>, path: Option<String>, threads: Option<i32>)
        ensures
            final(self).enable == (match enable {
                Some(e) => e,
                None => old(self).enable,
            }),
            final(self).path@ == (match path {
                Some(p) => p@,
                None => old(self).path@,
            }),
            final(self).threads == (match threads {
                Some(t) => t,
                None => old(self).threads,
            }),
    {
        if let Some(e) = enable {
            self.enable = e;
        }
        if let Some(p) = path {
            self.path = p;
        }
        if let Some(t) = threads {
            self.threads = t;
        }
    }

    /// An enabled handoff needs a path; a missing one is a warning.
    pub fn check(&self) -> (r: Option<CheckConfigResult>)
        ensures
            (self.enable && self.path@.len() == 0) ==> (r matches Some(c) && c@ == (
                seq![item_of("hinted_off", "path", "'path' is empty")],
                Seq::<ItemV>::empty(),
            )),
            !(self.enable && self.path@.len() == 0) ==> r is None,
    {
        let mut ret = CheckConfigResult::new();
        if self.enable && self.path.as_str().is_empty() {
            ret.add_warn(make_item("hinted_off", "path", "'path' is empty"));
        }
        if ret.is_empty() {
            None
        } else {
            Some(ret)
        }
    }
}

impl Default for HintedOffConfig {
    fn default() -> (r: Self)
        ensures
            r.enable,
            r.path@ == "/var/lib/cnosdb/hh"@,
            r.threads == 3,
    {
        HintedOffConfig {
            enable: Self::default_enable(),
            path: Self::default_path(),
            threads: Self::default_threads(),
        }
    }
}

/// The certificate and key of the server's TLS.
#[derive(Debug, Clone, PartialEq, Eq)]
pub struct TLSConfig {
    pub certificate: String,
    pub private_key: String,
}

impl TLSConfig {
    pub fn default_certificate() -> (r: String)
        ensures
            r@ == "/etc/cnosdb/tls/server.crt"@,
    {
        "/etc/cnosdb/tls/server.crt".to_owned()
    }

    pub fn default_private_key() -> (r: String)
        ensures
            r@ == "/etc/cnosdb/tls/server.key"@,
    {
        "/etc/cnosdb/tls/server.key".to_owned()
    }

    /// Both paths are needed; each missing one is an error.
    pub fn check(&self) -> (r: Option<CheckConfigResult>)
        ensures
            (self.certificate@.len() != 0 && self.private_key@.len() != 0) <==> r is None,
            r matches Some(c) ==> c@.0.len() == 0 && c@.1 == (if self.certificate@.len() == 0 {
                seq![item_of("security.tls", "certificate", "'certificate' is empty")]
            } else {
                Seq::<ItemV>::empty()
            }) + (if self.private_key@.len() == 0 {
                seq![item_of("security.tls", "private_key", "'private_key' is empty")]
            } else {
                Seq::<ItemV>::empty()
            }),
    {
        let mut ret = CheckConfigResult::new();
        if self.certificate.as_str().is_empty() {
            ret.add_error(make_item("security.tls", "certificate", "'certificate' is empty"));
        }
        if self.private_key.as_str().is_empty() {
            ret.add_error(make_item("security.tls", "private_key", "'private_key' is empty"));
        }
        assert(Seq::<ItemV>::empty() + Seq::<ItemV>::empty() =~= Seq::<ItemV>::empty());
        assert(seq![item_of("security.tls", "certificate", "'certificate' is empty")]
            + Seq::<ItemV>::empty() =~= seq![item_of("security.tls", "certificate", "'certificate' is empty")]);
        assert(Seq::<ItemV>::empty() + seq![item_of("security.tls", "private_key", "'private_key' is empty")]
            =~= seq![item_of("security.tls", "private_key", "'private_key' is empty")]);
        if ret.is_empty() {
            None
        } else {
            Some(ret)
        }
    }

    /// A TLS section after the values found in the environment: a
    /// certificate given replaces the configured one and leaves the key as
    /// it was; only when no certificate is given does a key given replace
    /// the configured one. A section that was absent appears, with empty
    /// paths but for the one given, as soon as one value is given.
    pub fn override_with(
        current: Option<TLSConfig>,
        certificate: Option<String>,
        private_key: Option<String>,
    ) -> (r: Option<TLSConfig>)
        ensures
            tls_view(r) == tls_overridden(tls_view(current), opt_view(certificate), opt_view(private_key)),
    {
        let is_some = current.is_some();
        let mut tls = match current {
            Some(c) => c,
            None => TLSConfig { certificate: String::new(), private_key: String::new() },
        };
        let overridden = match certificate {
            Some(c) => {
                tls.certificate = c;
                true
            },
            None => match private_key {
                Some(k) => {
                    tls.private_key = k;
                    true
                },
                None => false,
            },
        };
        if overridden || is_some {
            Some(tls)
        } else {
            None
        }
    }
}

/// A TLS section as its two paths.
pub open spec fn tls_view(o: Option<TLSConfig>) -> Option<(Seq<char>, Seq<char>)> {
    match o {
        Some(t) => Some((t.certificate@, t.private_key@)),
        None => None,
    }
}

/// What the environment makes of a TLS section (see `TLSConfig::override_with`).
pub open spec fn tls_overridden(
    current: Option<(Seq<char>, Seq<char>)>,
    certificate: Option<Seq<char>>,
    private_key: Option<Seq<char>>,
) -> Option<(Seq<char>, Seq<char>)> {
    let base = match current {
        Some(c) => c,
        None => (Seq::<char>::empty(), Seq::<char>::empty()),
    };
    match certificate {
        Some(c) => Some((c, base.1)),
        None => match private_key {
            Some(k) => Some((base.0, k)),
            None => current,
        },
    }
}

impl Default for TLSConfig {
    fn default() -> (r: Self)
        ensures
            r.certificate@ == "/etc/cnosdb/tls/server.crt"@,
            r.private_key@ == "/etc/cnosdb/tls/server.key"@,
    {
        TLSConfig {
            certificate: Self::default_certificate(),
            private_key: Self::default_private_key(),
        }
    }
}

/// The security section: TLS, if configured.
#[derive(Debug, Clone, PartialEq, Eq, Default)]
pub struct SecurityConfig {
    pub tls_config: Option<TLSConfig>,
}

impl SecurityConfig {
    /// Gathers the findings of the TLS section, and answers `Some` with no
    /// findings when there are none and `None` when there are some.
    pub fn check(&self) -> (r: Option<CheckConfigResult>)
        ensures
            r is Some <==> (match self.tls_config {
                Some(t) => t.certificate@.len() != 0 && t.private_key@.len() != 0,
                None => true,
            }),
            r matches Some(c) ==> c@.0.len() == 0 && c@.1.len() == 0,
    {
        let mut ret = CheckConfigResult::new();
        if let Some(tls) = &self.tls_config {
            if let Some(r) = tls.check() {
                ret.add_all(r);
            }
        }
        if ret.is_empty() {
            Some(ret)
        } else {
            None
        }
    }

    /// The TLS section after the values found in the environment.
    pub fn override_with(&mut self, certificate: Option<String>, private_key: Option<String>)
        ensures
            tls_view(final(self).tls_config) == tls_overridden(
                tls_view(old(self).tls_config),
                opt_view(certificate),
                opt_view(private_key),
            ),
    {
        let current = self.tls_config.take();
        self.tls_config = TLSConfig::override_with(current, certificate, private_key);
    }
}

/// The write-ahead log.
#[derive(Debug, Clone, PartialEq, Eq)]
pub struct WalConfig {
    pub path: String,
    pub wal_req_channel_cap: usize,
    pub max_file_size: u64,
    pub sync: bool,
}

impl WalConfig {
    pub fn default_path() -> (r: String)
        ensures
            r@ == "cnosdb_data/wal"@,
    {
        "cnosdb_data/wal".to_owned()
    }

    pub fn default_wal_req_channel_cap() -> (r: usize)
        ensures
            r == 64,
    {
        64
    }

    pub fn default_max_file_size() -> (r: u64)
        ensures
            r == 1024 * 1024 * 1024,
    {
        1024 * 1024 * 1024
    }

    pub fn default_sync() -> (r: bool)
        ensures
            !r,
    {
        false
    }

    /// An empty path is an error; a request channel under 16 is a warning.
    pub fn check(&self) -> (r: Option<CheckConfigResult>)
        ensures
            (self.path@.len() != 0 && self.wal_req_channel_cap >= 16) <==> r is None,
            r matches Some(c) ==> c@ == (
                if self.wal_req_channel_cap < 16 {
                    seq![
                        item_of(
                            "wal",
                            "wal_req_channel_cap",
                            "'wal_req_channel_cap' maybe too small(less than 16)",
                        ),
                    ]
                } else {
                    Seq::<ItemV>::empty()
                },
                if self.path@.len() == 0 {
                    seq![item_of("wal", "path", "'path' is empty")]
                } else {
                    Seq::<ItemV>::empty()
                },
            ),
    {
        let mut ret = CheckConfigResult::new();
        if self.path.as_str().is_empty() {
            ret.add_error(make_item("wal", "path", "'path' is empty"));
        }
        if self.wal_req_channel_cap < 16 {
            ret.add_warn(
                make_item(
                    "wal",
                    "wal_req_channel_cap",
                    "'wal_req_channel_cap' maybe too small(less than 16)",
                ),
            );
        }
        if ret.is_empty() {
            None
        } else {
            Some(ret)
        }
    }
}

impl Default for WalConfig {
    fn default() -> (r: Self)
        ensures
            r.path@ == "cnosdb_data/wal"@,
            r.wal_req_channel_cap == 64,
            r.max_file_size == 1024 * 1024 * 1024,
            !r.sync,
    {
        WalConfig {
            path: Self::default_path(),
            wal_req_channel_cap: Self::default_wal_req_channel_cap(),
            max_file_size: Self::default_max_file_size(),
            sync: Self::default_sync(),
        }
    }
}

/// With nothing in the environment, a TLS section stays as configured.
pub proof fn lemma_no_environment_keeps_tls(current: Option<(Seq<char>, Seq<char>)>)
    ensures
        tls_overridden(current, None, None) == current,
{
}

} // verus!
