//! Users, their options and privileges, and how a login is checked.
use vstd::prelude::*;

use crate::privilege::{
    privilege_covers, DatabasePrivilege, GlobalPrivilege, Oid, Privilege, TenantObjectPrivilege,
    TenantRoleIdentifier, UserRole,
};

verus! {

/// The name of the initial administrator.
pub const ROOT: &'static str = "root";

/// The initial administrator's password.
pub const ROOT_PWD: &'static str = "";

pub open spec fn opt_view(o: Option<String>) -> Option<Seq<char>> {
    match o {
        Some(s) => Some(s@),
        None => None,
    }
}

pub open spec fn or_else<T>(a: Option<T>, b: Option<T>) -> Option<T> {
    match a {
        Some(x) => Some(x),
        None => b,
    }
}

fn clone_opt_string(o: &Option<String>) -> (r: Option<String>)
    ensures
        opt_view(r) == opt_view(*o),
{
    match o {
        Some(s) => Some(s.clone()),
        None => None,
    }
}

/// The options of a user.
#[derive(Debug, Clone, Default)]
pub struct UserOptions {
    hash_password: Option<String>,
    must_change_password: Option<bool>,
    rsa_public_key: Option<String>,
    comment: Option<String>,
    granted_admin: Option<bool>,
}

/// The options of a user, as values.
pub struct UserOptionsView {
    pub hash_password: Option<Seq<char>>,
    pub must_change_password: Option<bool>,
    pub rsa_public_key: Option<Seq<char>>,
    pub comment: Option<Seq<char>>,
    pub granted_admin: Option<bool>,
}

impl UserOptionsView {
    /// Each option of `self`, or else of `other`.
    pub open spec fn merge(self, other: UserOptionsView) -> UserOptionsView {
        UserOptionsView {
            hash_password: or_else(self.hash_password, other.hash_password),
            must_change_password: or_else(self.must_change_password, other.must_change_password),
            rsa_public_key: or_else(self.rsa_public_key, other.rsa_public_key),
            comment: or_else(self.comment, other.comment),
            granted_admin: or_else(self.granted_admin, other.granted_admin),
        }
    }

    pub open spec fn empty() -> UserOptionsView {
        UserOptionsView {
            hash_password: None,
            must_change_password: None,
            rsa_public_key: None,
            comment: None,
            granted_admin: None,
        }
    }
}

impl View for UserOptions {
    type V = UserOptionsView;

    closed spec fn view(&self) -> UserOptionsView {
        UserOptionsView {
            hash_password: opt_view(self.hash_password),
            must_change_password: self.must_change_password,
            rsa_public_key: opt_view(self.rsa_public_key),
            comment: opt_view(self.comment),
            granted_admin: self.granted_admin,
        }
    }
}

pub open spec fn bool_chars(b: bool) -> Seq<char> {
    if b {
        "true"@
    } else {
        "false"@
    }
}

/// The text of the options that are shown: `must_change_password`,
/// `comment` and `granted_admin`, each as `name=value,` when set.
pub open spec fn user_options_text(o: UserOptionsView) -> Seq<char> {
    (match o.must_change_password {
        Some(e) => "must_change_password="@ + bool_chars(e) + ","@,
        None => Seq::empty(),
    }) + (match o.comment {
        Some(c) => "comment="@ + c + ","@,
        None => Seq::empty(),
    }) + (match o.granted_admin {
        Some(g) => "granted_admin="@ + bool_chars(g) + ","@,
        None => Seq::empty(),
    })
}

fn bool_str(b: bool) -> (r: &'static str)
    ensures
        r@ == bool_chars(b),
{
    if b {
        "true"
    } else {
        "false"
    }
}

impl UserOptions {
    /// No option set.
    pub fn new() -> (r: UserOptions)
        ensures
            r@ == UserOptionsView::empty(),
    {
        UserOptions {
            hash_password: None,
            must_change_password: None,
            rsa_public_key: None,
            comment: None,
            granted_admin: None,
        }
    }

    pub fn hash_password(&self) -> (r: Option<&str>)
        ensures
            match r {
                Some(s) => self@.hash_password == Some(s@),
                None => self@.hash_password is None,
            },
    {
        match &self.hash_password {
            Some(s) => Some(s.as_str()),
            None => None,
        }
    }

    pub fn must_change_password(&self) -> (r: Option<bool>)
        ensures
            r == self@.must_change_password,
    {
        self.must_change_password
    }

    pub fn rsa_public_key(&self) -> (r: Option<&str>)
        ensures
            match r {
                Some(s) => self@.rsa_public_key == Some(s@),
                None => self@.rsa_public_key is None,
            },
    {
        match &self.rsa_public_key {
            Some(s) => Some(s.as_str()),
            None => None,
        }
    }

    pub fn comment(&self) -> (r: Option<&str>)
        ensures
            match r {
                Some(s) => self@.comment == Some(s@),
                None => self@.comment is None,
            },
    {
        match &self.comment {
            Some(s) => Some(s.as_str()),
            None => None,
        }
    }

    pub fn granted_admin(&self) -> (r: Option<bool>)
        ensures
            r == self@.granted_admin,
    {
        self.granted_admin
    }

    /// Each option of `self`, or else of `other`.
    pub fn merge(self, other: Self) -> (r: Self)
        ensures
            r@ == self@.merge(other@),
    {
        UserOptions {
            hash_password: match self.hash_password {
                Some(x) => Some(x),
                None => other.hash_password,
            },
            must_change_password: match self.must_change_password {
                Some(x) => Some(x),
                None => other.must_change_password,
            },
            rsa_public_key: match self.rsa_public_key {
                Some(x) => Some(x),
                None => other.rsa_public_key,
            },
            comment: match self.comment {
                Some(x) => Some(x),
                None => other.comment,
            },
            granted_admin: match self.granted_admin {
                Some(x) => Some(x),
                None => other.granted_admin,
            },
        }
    }

    /// Masks the password hash as `*****`.
    pub fn hidden_password(&mut self)
        ensures
            final(self)@ == (UserOptionsView { hash_password: Some("*****"@), ..old(self)@ }),
    {
        self.hash_password = Some("*****".to_owned());
    }

    /// An equal copy.
    pub fn copied(&self) -> (r: UserOptions)
        ensures
            r@ == self@,
    {
        UserOptions {
            hash_password: clone_opt_string(&self.hash_password),
            must_change_password: self.must_change_password,
            rsa_public_key: clone_opt_string(&self.rsa_public_key),
            comment: clone_opt_string(&self.comment),
            granted_admin: self.granted_admin,
        }
    }

    /// The text that `Display` writes.
    pub fn to_string(&self) -> (r: String)
        ensures
            r@ == user_options_text(self@),
    {
        proof {
            reveal_strlit("");
        }
        let mut out = String::new();
        if let Some(e) = self.must_change_password {
            out.append("must_change_password=");
            out.append(bool_str(e));
            out.append(",");
        }
        let ghost first = out@;
        if let Some(c) = &self.comment {
            out.append("comment=");
            out.append(c.as_str());
            out.append(",");
        }
        let ghost second = out@;
        if let Some(g) = self.granted_admin {
            out.append("granted_admin=");
            out.append(bool_str(g));
            out.append(",");
        }
        assert(out@ =~= user_options_text(self@));
        out
    }
}

/// Why building user options failed.
#[derive(Debug)]
pub enum UserOptionsBuilderError {
    UninitializedField(&'static str),
    ValidationError(String),
}

/// Builds user options; an option never set stays unset.
#[derive(Debug, Clone, Default)]
pub struct UserOptionsBuilder {
    hash_password: Option<Option<String>>,
    must_change_password: Option<Option<bool>>,
    rsa_public_key: Option<Option<String>>,
    comment: Option<Option<String>>,
    granted_admin: Option<Option<bool>>,
}

pub open spec fn flatten<T>(o: Option<Option<T>>) -> Option<T> {
    match o {
        Some(Some(x)) => Some(x),
        _ => None,
    }
}

/// `bcrypt::hash` with the default cost (12). The salt comes from the
/// system's random source, so the text differs from call to call; what
/// holds of every hash it gives is that it is 60 ASCII characters in the
/// `$2b$12$` format, with the cost and salt written in it, so that
/// `bcrypt::verify` of the same password against it answers `true`. It
/// fails only when the random source does, which nothing here can tell.
#[verifier::external_body]
fn bcrypt_hash(password: &str) -> (r: Result<String, String>)
    ensures
        r matches Ok(h) ==> bcrypt_verifies(password@, h@),
        r matches Ok(h) ==> h@.len() == 60,
        r matches Ok(h) ==> "$2b$12$"@.is_prefix_of(h@),
{
    bcrypt::hash(password, bcrypt::DEFAULT_COST).map_err(|e| e.to_string())
}

impl UserOptionsBuilder {
    pub fn new() -> (r: UserOptionsBuilder)
        ensures
            r.spec_options() == UserOptionsView::empty(),
    {
        UserOptionsBuilder {
            hash_password: None,
            must_change_password: None,
            rsa_public_key: None,
            comment: None,
            granted_admin: None,
        }
    }

    /// The options that `build` gives.
    pub closed spec fn spec_options(&self) -> UserOptionsView {
        UserOptionsView {
            hash_password: match flatten(self.hash_password) {
                Some(s) => Some(s@),
                None => None,
            },
            must_change_password: flatten(self.must_change_password),
            rsa_public_key: match flatten(self.rsa_public_key) {
                Some(s) => Some(s@),
                None => None,
            },
            comment: match flatten(self.comment) {
                Some(s) => Some(s@),
                None => None,
            },
            granted_admin: flatten(self.granted_admin),
        }
    }

    pub fn hash_password(&mut self, value: String) -> (r: &mut Self)
        ensures
            r.spec_options() == (UserOptionsView {
                hash_password: Some(value@),
                ..old(self).spec_options()
            }),
            *final(self) == *final(r),
    {
        self.hash_password = Some(Some(value));
        self
    }

    pub fn must_change_password(&mut self, value: bool) -> (r: &mut Self)
        ensures
            r.spec_options() == (UserOptionsView {
                must_change_password: Some(value),
                ..old(self).spec_options()
            }),
            *final(self) == *final(r),
    {
        self.must_change_password = Some(Some(value));
        self
    }

    pub fn rsa_public_key(&mut self, value: String) -> (r: &mut Self)
        ensures
            r.spec_options() == (UserOptionsView {
                rsa_public_key: Some(value@),
                ..old(self).spec_options()
            }),
            *final(self) == *final(r),
    {
        self.rsa_public_key = Some(Some(value));
        self
    }

    pub fn comment(&mut self, value: String) -> (r: &mut Self)
        ensures
            r.spec_options() == (UserOptionsView {
                comment: Some(value@),
                ..old(self).spec_options()
            }),
            *final(self) == *final(r),
    {
        self.comment = Some(Some(value));
        self
    }

    pub fn granted_admin(&mut self, value: bool) -> (r: &mut Self)
        ensures
            r.spec_options() == (UserOptionsView {
                granted_admin: Some(value),
                ..old(self).spec_options()
            }),
            *final(self) == *final(r),
    {
        self.granted_admin = Some(Some(value));
        self
    }

    /// Sets the password hash to a salted bcrypt hash of `password`, one
    /// that verifies against it; when hashing fails, the builder is
    /// unchanged and the error carries the hashing error's text.
    pub fn password(&mut self, password: &str) -> (r: Result<(), UserOptionsBuilderError>)
        ensures
            r is Ok ==> final(self).spec_options() == (UserOptionsView {
                hash_password: final(self).spec_options().hash_password,
                ..old(self).spec_options()
            }),
            r is Ok ==> (final(self).spec_options().hash_password matches Some(h)
                && bcrypt_verifies(password@, h) && h.len()
                == 60 && "$2b$12$"@.is_prefix_of(h)),
            r is Err ==> final(self).spec_options() == old(self).spec_options(),
            r matches Err(e) ==> e is ValidationError,
    {
        let outcome = bcrypt_hash(password);
        self.set_password_hash(outcome)
    }

    /// What setting a password makes of the hashing's outcome: a hash is
    /// stored as the password hash, every other option kept; a hashing
    /// error is returned as a validation error with its text, and the
    /// builder is left as it was.
    pub fn set_password_hash(&mut self, outcome: Result<String, String>) -> (r: Result<(), UserOptionsBuilderError>)
        ensures
            match outcome {
                Ok(h) => r is Ok && final(self).spec_options() == (UserOptionsView {
                    hash_password: Some(h@),
                    ..old(self).spec_options()
                }),
                Err(e) => r == Err::<(), UserOptionsBuilderError>(UserOptionsBuilderError::ValidationError(e))
                    && final(self).spec_options() == old(self).spec_options(),
            },
    {
        match outcome {
            Ok(hash) => {
                self.hash_password = Some(Some(hash));
                Ok(())
            },
            Err(e) => Err(UserOptionsBuilderError::ValidationError(e)),
        }
    }

    /// The options set so far; every option not set is unset.
    pub fn build(&self) -> (r: Result<UserOptions, UserOptionsBuilderError>)
        ensures
            r matches Ok(o) && o@ == self.spec_options(),
    {
        let hash_password = match &self.hash_password {
            Some(v) => clone_opt_string(v),
            None => None,
        };
        let rsa_public_key = match &self.rsa_public_key {
            Some(v) => clone_opt_string(v),
            None => None,
        };
        let comment = match &self.comment {
            Some(v) => clone_opt_string(v),
            None => None,
        };
        let must_change_password = match self.must_change_password {
            Some(v) => v,
            None => None,
        };
        let granted_admin = match self.granted_admin {
            Some(v) => v,
            None => None,
        };
        Ok(
            UserOptions {
                hash_password,
                must_change_password,
                rsa_public_key,
                comment,
                granted_admin,
            },
        )
    }
}

/// A user's identity and options.
#[derive(Debug, Clone)]
pub struct UserDesc {
    id: Oid,
    name: String,
    options: UserOptions,
    is_root_admin: bool,
}

impl UserDesc {
    pub closed spec fn spec_id(&self) -> Oid {
        self.id
    }

    pub closed spec fn spec_name(&self) -> Seq<char> {
        self.name@
    }

    pub closed spec fn spec_options(&self) -> UserOptionsView {
        self.options@
    }

    pub closed spec fn spec_is_root_admin(&self) -> bool {
        self.is_root_admin
    }

    /// Whether the user was granted administration through its options.
    pub open spec fn spec_is_granted_admin(&self) -> bool {
        self.spec_options().granted_admin == Some(true)
    }

    pub fn new(id: Oid, name: String, options: UserOptions, is_root_admin: bool) -> (r: Self)
        ensures
            r.spec_id() == id,
            r.spec_name() == name@,
            r.spec_options() == options@,
            r.spec_is_root_admin() == is_root_admin,
    {
        UserDesc { id, name, options, is_root_admin }
    }

    pub fn id(&self) -> (r: Oid)
        ensures
            r == self.spec_id(),
    {
        self.id
    }

    pub fn name(&self) -> (r: &str)
        ensures
            r@ == self.spec_name(),
    {
        self.name.as_str()
    }

    pub fn options(&self) -> (r: &UserOptions)
        ensures
            r@ == self.spec_options(),
    {
        &self.options
    }

    /// The initial system administrator.
    pub fn is_root_admin(&self) -> (r: bool)
        ensures
            r == self.spec_is_root_admin(),
    {
        self.is_root_admin
    }

    /// Administration granted through the options; unset means no.
    pub fn is_granted_admin(&self) -> (r: bool)
        ensures
            r == self.spec_is_granted_admin(),
    {
        match self.options.granted_admin() {
            Some(b) => b,
            None => false,
        }
    }

    /// The root administrator, or a user granted administration.
    pub fn is_admin(&self) -> (r: bool)
        ensures
            r == (self.spec_is_root_admin() || self.spec_is_granted_admin()),
    {
        self.is_root_admin() || self.is_granted_admin()
    }

    /// The same user under another name.
    pub fn rename(self, new_name: String) -> (r: Self)
        ensures
            r.spec_id() == self.spec_id(),
            r.spec_name() == new_name@,
            r.spec_options() == self.spec_options(),
            r.spec_is_root_admin() == self.spec_is_root_admin(),
    {
        UserDesc { id: self.id, name: new_name, options: self.options, is_root_admin: self.is_root_admin }
    }

    /// Two descriptions are the same user when id and name agree.
    pub fn same_user(&self, other: &UserDesc) -> (r: bool)
        ensures
            r == (self.spec_id() == other.spec_id() && self.spec_name() == other.spec_name()),
    {
        self.id == other.id && crate::text::str_eq(self.name.as_str(), other.name.as_str())
    }
}

/// A user: identity, privileges and role.
#[derive(Debug, Clone)]
pub struct User {
    desc: UserDesc,
    privileges: Vec<Privilege>,
    role: Option<TenantRoleIdentifier>,
}

impl User {
    pub closed spec fn spec_desc(&self) -> UserDesc {
        self.desc
    }

    /// The privileges the user holds, as a set.
    pub closed spec fn spec_privileges(&self) -> Set<Privilege> {
        self.privileges@.to_set()
    }

    pub closed spec fn spec_role(&self) -> Option<TenantRoleIdentifier> {
        self.role
    }

    /// Whether some privilege the user holds grants `p`.
    pub open spec fn grants(&self, p: Privilege) -> bool {
        exists|e: Privilege| #[trigger] self.spec_privileges().contains(e) && privilege_covers(e, p)
    }

    /// A user with the given privileges and the privilege to change itself.
    pub fn new(desc: UserDesc, privileges: Vec<Privilege>, role: Option<TenantRoleIdentifier>) -> (r:
        Self)
        ensures
            r.spec_desc() == desc,
            r.spec_privileges() == privileges@.to_set().insert(
                Privilege::Global(GlobalPrivilege::User(Some(desc.spec_id()))),
            ),
            r.spec_role() == role,
    {
        let mut privileges = privileges;
        let ghost before = privileges@;
        privileges.push(Privilege::Global(GlobalPrivilege::User(Some(desc.id()))));
        proof {
            assert(privileges@.to_set() =~= before.to_set().insert(
                Privilege::Global(GlobalPrivilege::User(Some(desc.spec_id()))),
            )) by {
                assert forall|x: Privilege| privileges@.to_set().contains(x) <==> before.to_set().insert(
                    Privilege::Global(GlobalPrivilege::User(Some(desc.spec_id()))),
                ).contains(x) by {
                    assert(privileges@ == before.push(
                        Privilege::Global(GlobalPrivilege::User(Some(desc.spec_id()))),
                    ));
                    if before.contains(x) {
                        let w = choose|w: int| 0 <= w < before.len() && before[w] == x;
                        assert(privileges@[w] == x);
                    }
                    if x == Privilege::Global(GlobalPrivilege::User(Some(desc.spec_id()))) {
                        assert(privileges@[before.len() as int] == x);
                    }
                    if privileges@.contains(x) {
                        let w = choose|w: int| 0 <= w < privileges@.len() && privileges@[w] == x;
                        if w < before.len() {
                            assert(before[w] == x);
                        }
                    }
                }
            }
        }
        User { desc, privileges, role }
    }

    pub fn role(&self) -> (r: Option<&TenantRoleIdentifier>)
        ensures
            match r {
                Some(x) => self.spec_role() == Some(*x),
                None => self.spec_role() is None,
            },
    {
        match &self.role {
            Some(x) => Some(x),
            None => None,
        }
    }

    pub fn desc(&self) -> (r: &UserDesc)
        ensures
            *r == self.spec_desc(),
    {
        &self.desc
    }

    /// Whether some privilege the user holds grants `privilege`.
    pub fn check_privilege(&self, privilege: &Privilege) -> (r: bool)
        ensures
            r == self.grants(*privilege),
    {
        let n = self.privileges.len();
        for i in 0..n
            invariant
                n == self.privileges@.len(),
                forall|k: int| 0 <= k < i ==> !privilege_covers(self.privileges@[k], *privilege),
        {
            if self.privileges[i].check_privilege(privilege) {
                proof {
                    assert(self.privileges@.contains(self.privileges@[i as int]));
                    assert(self.spec_privileges().contains(self.privileges@[i as int]));
                }
                return true;
            }
        }
        proof {
            assert forall|e: Privilege| #[trigger] self.spec_privileges().contains(e) implies !privilege_covers(
                e,
                *privilege,
            ) by {
                assert(self.privileges@.contains(e));
                let w = choose|w: int| 0 <= w < self.privileges@.len() && self.privileges@[w] == e;
            }
        }
        false
    }

    /// Whether the user may run system operations of the tenant.
    pub fn can_access_system(&self, tenant_id: Oid) -> (r: bool)
        ensures
            r == self.grants(Privilege::TenantObject(TenantObjectPrivilege::System, Some(tenant_id))),
    {
        let privilege = Privilege::TenantObject(TenantObjectPrivilege::System, Some(tenant_id));
        self.check_privilege(&privilege)
    }

    /// Whether the user may manage the tenant's roles.
    pub fn can_access_role(&self, tenant_id: Oid) -> (r: bool)
        ensures
            r == self.grants(Privilege::TenantObject(TenantObjectPrivilege::RoleFull, Some(tenant_id))),
    {
        let privilege = Privilege::TenantObject(TenantObjectPrivilege::RoleFull, Some(tenant_id));
        self.check_privilege(&privilege)
    }

    /// Whether the user may read the tenant's database.
    pub fn can_read_database(&self, tenant_id: Oid, database_name: &str) -> (r: bool)
        ensures
            exists|db: String|
                db@ == database_name@ && r == self.grants(
                    Privilege::TenantObject(
                        TenantObjectPrivilege::Database(DatabasePrivilege::Read, Some(db)),
                        Some(tenant_id),
                    ),
                ),
    {
        let privilege = Privilege::TenantObject(
            TenantObjectPrivilege::Database(DatabasePrivilege::Read, Some(database_name.to_owned())),
            Some(tenant_id),
        );
        self.check_privilege(&privilege)
    }
}

/// A user with every privilege of the database administrator.
pub fn admin_user(desc: UserDesc, role: Option<TenantRoleIdentifier>) -> (r: User)
    ensures
        r.spec_desc() == desc,
        r.spec_role() == role,
        r.spec_privileges() == UserRole::Dba.spec_privileges().to_set().insert(
            Privilege::Global(GlobalPrivilege::User(Some(desc.spec_id()))),
        ),
{
    let privileges = UserRole::Dba.to_privileges();
    User::new(desc, privileges, role)
}

/// Merging options keeps every option that is set on the left, takes the
/// right one where the left is unset, and merging in no options changes
/// nothing.
pub proof fn lemma_merge_laws(a: UserOptionsView, b: UserOptionsView, c: UserOptionsView)
    ensures
        a.merge(b).merge(c) == a.merge(b.merge(c)),
        a.merge(UserOptionsView::empty()) == a,
        UserOptionsView::empty().merge(a) == a,
        a.merge(a) == a,
        a.hash_password is Some ==> a.merge(b).hash_password == a.hash_password,
        a.rsa_public_key is Some ==> a.merge(b).rsa_public_key == a.rsa_public_key,
{
}

/// Every user may change itself.
pub proof fn lemma_user_may_change_itself(
    desc: UserDesc,
    privileges: Seq<Privilege>,
    user: User,
)
    requires
        user.spec_desc() == desc,
        user.spec_privileges() == privileges.to_set().insert(
            Privilege::Global(GlobalPrivilege::User(Some(desc.spec_id()))),
        ),
    ensures
        user.grants(Privilege::Global(GlobalPrivilege::User(Some(desc.spec_id())))),
{
    let p = Privilege::Global(GlobalPrivilege::User(Some(desc.spec_id())));
    assert(user.spec_privileges().contains(p));
    assert(privilege_covers(p, p));
}

/// An administrator may run system operations and manage roles of every
/// tenant, read and write every database of every tenant, and change
/// every user.
pub proof fn lemma_admin_may_do_everything(user: User, tenant: Oid, db: String, other: Oid)
    requires
        user.spec_privileges().contains(Privilege::Global(GlobalPrivilege::System)),
        user.spec_privileges().contains(Privilege::TenantObject(TenantObjectPrivilege::System, None)),
        user.spec_privileges().contains(Privilege::TenantObject(TenantObjectPrivilege::RoleFull, None)),
        user.spec_privileges().contains(
            Privilege::TenantObject(TenantObjectPrivilege::Database(DatabasePrivilege::Full, None), None),
        ),
    ensures
        user.grants(Privilege::TenantObject(TenantObjectPrivilege::System, Some(tenant))),
        user.grants(Privilege::TenantObject(TenantObjectPrivilege::RoleFull, Some(tenant))),
        user.grants(
            Privilege::TenantObject(
                TenantObjectPrivilege::Database(DatabasePrivilege::Read, Some(db)),
                Some(tenant),
            ),
        ),
        user.grants(
            Privilege::TenantObject(
                TenantObjectPrivilege::Database(DatabasePrivilege::Write, Some(db)),
                Some(tenant),
            ),
        ),
        user.grants(Privilege::Global(GlobalPrivilege::User(Some(other)))),
{
    let full = Privilege::TenantObject(
        TenantObjectPrivilege::Database(DatabasePrivilege::Full, None),
        None,
    );
    let sys = Privilege::TenantObject(TenantObjectPrivilege::System, None);
    let role = Privilege::TenantObject(TenantObjectPrivilege::RoleFull, None);
    let g = Privilege::Global(GlobalPrivilege::System);
    assert(privilege_covers(sys, Privilege::TenantObject(TenantObjectPrivilege::System, Some(tenant))));
    assert(privilege_covers(role, Privilege::TenantObject(TenantObjectPrivilege::RoleFull, Some(tenant))));
    assert(privilege_covers(
        full,
        Privilege::TenantObject(
            TenantObjectPrivilege::Database(DatabasePrivilege::Read, Some(db)),
            Some(tenant),
        ),
    ));
    assert(privilege_covers(
        full,
        Privilege::TenantObject(
            TenantObjectPrivilege::Database(DatabasePrivilege::Write, Some(db)),
            Some(tenant),
        ),
    ));
    assert(privilege_covers(g, Privilege::Global(GlobalPrivilege::User(Some(other)))));
}

/// The administrator made by `admin_user` holds the privileges that
/// `lemma_admin_may_do_everything` asks for.
pub proof fn lemma_admin_user_is_admin(desc: UserDesc, user: User)
    requires
        user.spec_privileges() == UserRole::Dba.spec_privileges().to_set().insert(
            Privilege::Global(GlobalPrivilege::User(Some(desc.spec_id()))),
        ),
    ensures
        user.spec_privileges().contains(Privilege::Global(GlobalPrivilege::System)),
        user.spec_privileges().contains(Privilege::TenantObject(TenantObjectPrivilege::System, None)),
        user.spec_privileges().contains(Privilege::TenantObject(TenantObjectPrivilege::RoleFull, None)),
        user.spec_privileges().contains(
            Privilege::TenantObject(TenantObjectPrivilege::Database(DatabasePrivilege::Full, None), None),
        ),
{
    let d = crate::privilege::dba_privileges();
    assert(d[0] == Privilege::Global(GlobalPrivilege::System));
    assert(d[3] == Privilege::TenantObject(TenantObjectPrivilege::System, None));
    assert(d[5] == Privilege::TenantObject(TenantObjectPrivilege::RoleFull, None));
    assert(d[6] == Privilege::TenantObject(TenantObjectPrivilege::Database(DatabasePrivilege::Full, None), None));
    assert(d.contains(d[0]));
    assert(d.contains(d[3]));
    assert(d.contains(d[5]));
    assert(d.contains(d[6]));
}

/// The credentials a client logs in with.
#[derive(Debug, Clone, PartialEq, Eq)]
pub struct UserInfo {
    pub user: String,
    pub password: String,
    pub private_key: Option<String>,
}

/// Why a login failed.
#[derive(Debug)]
pub enum AuthError {
    PasswordNotSet,
    AccessDenied { user_name: String, auth_type: String, err: String },
    /// The credential check itself failed.
    Verification { reason: String },
}

/// How a user authenticates.
pub enum AuthType<'a> {
    HashPassword(Option<&'a str>),
    Rsa(&'a str),
}

/// What `bcrypt::verify` answers for a password and a hash: whether the
/// password, hashed with the cost and salt written in the hash, gives the
/// hash written there; or the message of the error when the hash is no
/// bcrypt hash.
pub uninterp spec fn bcrypt_verify_outcome(password: Seq<char>, hash: Seq<char>) -> Result<bool, Seq<char>>;

/// Whether `bcrypt::verify` accepts the password against the hash.
pub open spec fn bcrypt_verifies(password: Seq<char>, hash: Seq<char>) -> bool {
    bcrypt_verify_outcome(password, hash) == Ok::<bool, Seq<char>>(true)
}

/// `bcrypt::verify`. The contract only names its outcome, which depends on
/// the password and the hash alone.
#[verifier::external_body]
fn bcrypt_verify(password: &str, hash: &str) -> (r: Result<bool, String>)
    ensures
        match r {
            Ok(b) => bcrypt_verify_outcome(password@, hash@) == Ok::<bool, Seq<char>>(b),
            Err(e) => bcrypt_verify_outcome(password@, hash@) == Err::<bool, Seq<char>>(e@),
        },
{
    bcrypt::verify(password, hash).map_err(|e| e.to_string())
}

/// A denial naming the user, the way of authentication and the reason.
pub open spec fn is_denial(r: Result<(), AuthError>, user: Seq<char>, auth: Seq<char>, reason: Seq<char>) -> bool {
    r matches Err(AuthError::AccessDenied { user_name, auth_type, err }) && user_name@ == user
        && auth_type@ == auth && err@ == reason
}

impl<'a> AuthType<'a> {
    /// An RSA public key, if set, decides; otherwise the password hash.
    pub fn from_options(options: &'a UserOptions) -> (r: AuthType<'a>)
        ensures
            match options@.rsa_public_key {
                Some(k) => r matches AuthType::Rsa(s) && s@ == k,
                None => match options@.hash_password {
                    Some(h) => r matches AuthType::HashPassword(Some(s)) && s@ == h,
                    None => r matches AuthType::HashPassword(None),
                },
            },
    {
        if let Some(key) = options.rsa_public_key() {
            return AuthType::Rsa(key);
        }
        AuthType::HashPassword(options.hash_password())
    }

    /// Checks the credentials: a password needs a hash to check against,
    /// and bcrypt decides whether it matches; RSA needs the client's
    /// private key, and `rsa_verify` decides whether the password signed
    /// with it checks against the user's public key.
    pub fn access_check<F: Fn(&str, &str, &str) -> Result<bool, AuthError>>(
        &self,
        user_info: &UserInfo,
        rsa_verify: F,
    ) -> (r: Result<(), AuthError>)
        requires
            forall|k: &str, p: &str, q: &str| #[trigger] call_requires(rsa_verify, (k, p, q)),
        ensures
            match self {
                AuthType::HashPassword(None) => r matches Err(AuthError::PasswordNotSet),
                AuthType::HashPassword(Some(h)) => match bcrypt_verify_outcome(user_info.password@, h@) {
                    Err(m) => r matches Err(AuthError::Verification { reason }) && reason@ == m,
                    Ok(true) => r is Ok,
                    Ok(false) => is_denial(
                        r,
                        user_info.user@,
                        "password"@,
                        "incorrect password attempt."@,
                    ),
                },
                AuthType::Rsa(pk) => match user_info.private_key {
                    None => is_denial(r, user_info.user@, "RSA"@, "client no private key"@),
                    Some(k) => exists|a: &str, b: &str, c: &str, out: Result<bool, AuthError>|
                        #![trigger call_ensures(rsa_verify, (a, b, c), out)]
                        a@ == k@ && b@ == user_info.password@ && c@ == pk@ && call_ensures(
                            rsa_verify,
                            (a, b, c),
                            out,
                        ) && match out {
                            Err(e) => r == Err::<(), AuthError>(e),
                            Ok(true) => r is Ok,
                            Ok(false) => is_denial(
                                r,
                                user_info.user@,
                                "RSA"@,
                                "invalid certificate"@,
                            ),
                        },
                },
            },
    {
        let user_name = user_info.user.as_str();
        let password = user_info.password.as_str();
        match self {
            AuthType::HashPassword(hash_password) => {
                let hash_password = match hash_password {
                    Some(h) => *h,
                    None => return Err(AuthError::PasswordNotSet),
                };
                match bcrypt_verify(password, hash_password) {
                    Err(reason) => Err(AuthError::Verification { reason }),
                    Ok(true) => Ok(()),
                    Ok(false) => Err(
                        AuthError::AccessDenied {
                            user_name: user_name.to_owned(),
                            auth_type: "password".to_owned(),
                            err: "incorrect password attempt.".to_owned(),
                        },
                    ),
                }
            },
            AuthType::Rsa(public_key_pem) => {
                let private_key_pem = match &user_info.private_key {
                    Some(k) => k.as_str(),
                    None => {
                        return Err(
                            AuthError::AccessDenied {
                                user_name: user_name.to_owned(),
                                auth_type: "RSA".to_owned(),
                                err: "client no private key".to_owned(),
                            },
                        )
                    },
                };
                let out = rsa_verify(private_key_pem, password, *public_key_pem);
                match out {
                    Err(e) => Err(e),
                    Ok(true) => Ok(()),
                    Ok(false) => Err(
                        AuthError::AccessDenied {
                            user_name: user_name.to_owned(),
                            auth_type: "RSA".to_owned(),
                            err: "invalid certificate".to_owned(),
                        },
                    ),
                }
            },
        }
    }
}

} // verus!
