use vstd::prelude::*;
use crate::migration::{reserved_free, SESSIONS_TABLE, USERS_TABLE};
use crate::naming::{is_lower_letter, is_name_char, valid_name};

verus! {

/// The feature selection of one generation run.
#[derive(Clone)]
pub struct Config {
    pub crud: bool,
    pub auth: bool,
    pub routes: Option<Vec<String>>,
    pub secrets: bool,
}

/// One resource that gets handlers, a router and a table.
#[derive(Clone)]
pub struct Route {
    pub name: String,
    pub auth_required: bool,
}

/// Why a feature selection was rejected before anything was generated.
#[derive(Clone, Copy, Debug, PartialEq, Eq, Structural)]
pub enum ConfigError {
    /// A resource name is empty or not a lower-case identifier.
    InvalidName,
    /// Two resources have the same name.
    DuplicateName,
    /// With authentication on, a resource takes a name that authentication
    /// uses for its tables or its module.
    ReservedName,
    /// Protected resources were asked for while authentication is off.
    ProtectWithoutAuth,
}

/// Every resource name is valid.
pub open spec fn names_valid(rs: Seq<Route>) -> bool {
    forall|i: int| 0 <= i < rs.len() ==> valid_name(#[trigger] rs[i].name@)
}

/// No two resources share a name.
pub open spec fn names_distinct(rs: Seq<Route>) -> bool {
    forall|i: int, j: int| 0 <= i < j < rs.len() ==> #[trigger] rs[i].name@ != #[trigger] rs[j].name@
}

/// Two of the names `ns` are equal.
pub open spec fn has_duplicate(ns: Seq<String>) -> bool {
    exists|i: int, j: int| 0 <= i < j < ns.len() && #[trigger] ns[i]@ == #[trigger] ns[j]@
}

/// Only an authenticated service has protected resources.
pub open spec fn guards_need_auth(cfg: Config, rs: Seq<Route>) -> bool {
    forall|i: int| 0 <= i < rs.len() ==> (#[trigger] rs[i].auth_required ==> cfg.auth)
}

/// The module that holds the authentication handlers.
pub const AUTH_MODULE: &'static str = "auth";

/// A name that an authenticated service uses for itself: its two tables and
/// its handler module.
pub open spec fn reserved_name(n: Seq<char>) -> bool {
    n == USERS_TABLE@ || n == SESSIONS_TABLE@ || n == AUTH_MODULE@
}

/// Whether `n` is reserved.
pub fn is_reserved(n: &String) -> (r: bool)
    ensures
        r == reserved_name(n@),
{
    let users = String::from_str(USERS_TABLE);
    let sessions = String::from_str(SESSIONS_TABLE);
    let module = String::from_str(AUTH_MODULE);
    n.eq(&users) || n.eq(&sessions) || n.eq(&module)
}

/// A configuration and its resource list agree: CRUD is on exactly when there
/// are resources, names are valid and distinct, only an authenticated service
/// has protected resources, and its resources leave its own names free.
pub open spec fn well_formed(cfg: Config, rs: Seq<Route>) -> bool {
    &&& cfg.crud == (rs.len() > 0)
    &&& names_valid(rs)
    &&& names_distinct(rs)
    &&& guards_need_auth(cfg, rs)
    &&& reserved_free(rs, cfg.auth)
}

/// Text `s` is one identifier and not a keyword.
pub uninterp spec fn ident_ok(s: Seq<char>) -> bool;

/// Relies on syn's parser for `syn::Ident` (through syn::parse_str), which
/// accepts exactly one identifier and refuses the keywords and `_`. Its
/// answer depends on the text alone.
#[verifier::external_body]
fn is_identifier(s: &str) -> (r: bool)
    ensures
        r == ident_ok(s@),
{
    match syn::parse_str::<syn::Ident>(s) {
        Ok(_) => true,
        Err(_) => false,
    }
}

/// A name that a configuration accepts: valid, and not a keyword.
pub open spec fn acceptable_name(n: Seq<char>) -> bool {
    valid_name(n) && ident_ok(n)
}

/// Whether `n` is a valid resource name.
pub fn is_valid_name(n: &str) -> (r: bool)
    ensures
        r == valid_name(n@),
{
    let len = n.unicode_len();
    if len == 0 {
        return false;
    }
    let c0 = n.get_char(0);
    if !(('a' <= c0 && c0 <= 'z') || c0 == '_') {
        return false;
    }
    let mut i: usize = 1;
    while i < len
        invariant
            1 <= i <= len,
            len == n@.len(),
            forall|j: int| 1 <= j < i ==> is_name_char(#[trigger] n@[j]),
        decreases len - i,
    {
        let c = n.get_char(i);
        if !(('a' <= c && c <= 'z') || ('0' <= c && c <= '9') || c == '_') {
            assert(!is_name_char(n@[i as int]));
            return false;
        }
        i = i + 1;
    }
    true
}

/// One of the names `ns` is reserved.
pub open spec fn has_reserved(ns: Seq<String>) -> bool {
    exists|i: int| 0 <= i < ns.len() && reserved_name(#[trigger] ns[i]@)
}

/// Whether one of `names` is reserved.
pub fn find_reserved(names: &Vec<String>) -> (r: bool)
    ensures
        r == has_reserved(names@),
{
    let mut i: usize = 0;
    while i < names.len()
        invariant
            i <= names@.len(),
            forall|j: int| 0 <= j < i ==> !reserved_name(#[trigger] names@[j]@),
        decreases names@.len() - i,
    {
        if is_reserved(&names[i]) {
            return true;
        }
        i = i + 1;
    }
    false
}

/// Whether two of `names` are equal.
pub fn find_duplicate(names: &Vec<String>) -> (r: bool)
    ensures
        r == has_duplicate(names@),
{
    let mut j: usize = 0;
    while j < names.len()
        invariant
            j <= names@.len(),
            forall|a: int, b: int| 0 <= a < b < j ==> #[trigger] names@[a]@ != #[trigger] names@[b]@,
        decreases names@.len() - j,
    {
        let mut i: usize = 0;
        while i < j
            invariant
                i <= j < names@.len(),
                forall|a: int| 0 <= a < i ==> #[trigger] names@[a]@ != names@[j as int]@,
            decreases j - i,
        {
            if names[i] == names[j] {
                assert(names@[i as int]@ == names@[j as int]@);
                return true;
            }
            i = i + 1;
        }
        j = j + 1;
    }
    false
}

/// Turns the selected names and flags into a configuration and its resource
/// list. With `protect`, every resource sits behind the authentication guard.
/// Invalid names and keywords are reported first, then repeated names, then
/// reserved names with `auth`, then `protect` without `auth`.
pub fn configure(names: Vec<String>, auth: bool, secrets: bool, protect: bool) -> (r: Result<
    (Config, Vec<Route>),
    ConfigError,
>)
    ensures
        r == Err::<(Config, Vec<Route>), ConfigError>(ConfigError::InvalidName) <==> exists|i: int|
            0 <= i < names@.len() && !acceptable_name(#[trigger] names@[i]@),
        r == Err::<(Config, Vec<Route>), ConfigError>(ConfigError::DuplicateName) <==> (
        forall|i: int| 0 <= i < names@.len() ==> acceptable_name(#[trigger] names@[i]@))
            && has_duplicate(names@),
        r == Err::<(Config, Vec<Route>), ConfigError>(ConfigError::ReservedName) <==> (
        forall|i: int| 0 <= i < names@.len() ==> acceptable_name(#[trigger] names@[i]@))
            && !has_duplicate(names@) && auth && has_reserved(names@),
        r == Err::<(Config, Vec<Route>), ConfigError>(ConfigError::ProtectWithoutAuth) <==> (
        forall|i: int| 0 <= i < names@.len() ==> acceptable_name(#[trigger] names@[i]@))
            && !has_duplicate(names@) && protect && !auth,
        r matches Ok((cfg, rs)) ==> {
            &&& well_formed(cfg, rs@)
            &&& cfg.crud == (names@.len() > 0)
            &&& cfg.auth == auth
            &&& cfg.secrets == secrets
            &&& (names@.len() == 0 ==> cfg.routes is None)
            &&& (names@.len() > 0 ==> (cfg.routes matches Some(v) && v@ == names@))
            &&& rs@.len() == names@.len()
            &&& forall|i: int|
                0 <= i < rs@.len() ==> (#[trigger] rs@[i]).name@ == names@[i]@
                    && rs@[i].auth_required == protect
        },
{
    let mut i: usize = 0;
    while i < names.len()
        invariant
            i <= names@.len(),
            forall|j: int| 0 <= j < i ==> acceptable_name(#[trigger] names@[j]@),
        decreases names@.len() - i,
    {
        if !is_valid_name(names[i].as_str()) || !is_identifier(names[i].as_str()) {
            return Err(ConfigError::InvalidName);
        }
        i = i + 1;
    }
    if find_duplicate(&names) {
        return Err(ConfigError::DuplicateName);
    }
    if auth && find_reserved(&names) {
        return Err(ConfigError::ReservedName);
    }
    if protect && !auth {
        return Err(ConfigError::ProtectWithoutAuth);
    }
    let mut rs: Vec<Route> = Vec::new();
    let mut i: usize = 0;
    while i < names.len()
        invariant
            i <= names@.len(),
            rs@.len() == i,
            forall|j: int|
                0 <= j < i ==> (#[trigger] rs@[j]).name@ == names@[j]@ && rs@[j].auth_required
                    == protect,
        decreases names@.len() - i,
    {
        rs.push(Route { name: String::from_str(names[i].as_str()), auth_required: protect });
        i = i + 1;
    }
    assert(names_distinct(rs@)) by {
        assert forall|a: int, b: int| 0 <= a < b < rs@.len() implies #[trigger] rs@[a].name@
            != #[trigger] rs@[b].name@ by {
            assert(names@[a]@ != names@[b]@);
        }
    }
    let crud = names.len() > 0;
    let routes = if crud {
        Some(names)
    } else {
        None
    };
    Ok((Config { crud, auth, routes, secrets }, rs))
}

} // verus!
