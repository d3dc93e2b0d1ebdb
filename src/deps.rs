use vstd::prelude::*;
use crate::config::Config;
use crate::snippets::uses_state;

verus! {

pub const SHUTTLE_VERSION: &'static str = "0.24.0";

/// A crate that the generated service depends on.
#[derive(Clone, Copy, Debug, PartialEq, Eq, Structural)]
pub enum Dependency {
    Axum,
    ShuttleRuntime,
    ShuttleAxum,
    Tokio,
    Sqlx,
    ShuttleSharedDb,
    Chrono,
    Serde,
    AxumExtra,
    Time,
    Bcrypt,
    Rand,
    ShuttleSecrets,
}

/// The crates that only the authentication files use.
pub open spec fn auth_only(d: Dependency) -> bool {
    match d {
        Dependency::AxumExtra | Dependency::Time | Dependency::Bcrypt | Dependency::Rand => true,
        _ => false,
    }
}

pub open spec fn deps_if(b: bool, ds: Seq<Dependency>) -> Seq<Dependency> {
    if b {
        ds
    } else {
        Seq::empty()
    }
}

/// The crates a service for `cfg` needs: the web framework and runtime
/// always; the database driver, the pool injection, time stamps and
/// serialisation when it keeps state; cookies, time spans, password hashing
/// and random tokens with authentication; and the secrets store.
pub open spec fn required(cfg: Config) -> Seq<Dependency> {
    seq![Dependency::Axum, Dependency::ShuttleRuntime, Dependency::ShuttleAxum, Dependency::Tokio]
        + deps_if(
        uses_state(cfg),
        seq![Dependency::Sqlx, Dependency::ShuttleSharedDb, Dependency::Chrono, Dependency::Serde],
    ) + deps_if(
        cfg.auth,
        seq![Dependency::AxumExtra, Dependency::Time, Dependency::Bcrypt, Dependency::Rand],
    ) + deps_if(cfg.secrets, seq![Dependency::ShuttleSecrets])
}

fn push_deps(v: &mut Vec<Dependency>, b: bool, ds: Vec<Dependency>)
    ensures
        final(v)@ == old(v)@ + deps_if(b, ds@),
{
    if b {
        let mut i: usize = 0;
        let ghost start = v@;
        while i < ds.len()
            invariant
                i <= ds@.len(),
                v@ == start + ds@.take(i as int),
            decreases ds@.len() - i,
        {
            v.push(ds[i]);
            assert(start + ds@.take(i + 1) =~= start + ds@.take(i as int) + seq![ds@[i as int]]);
            i = i + 1;
        }
        assert(ds@.take(ds@.len() as int) =~= ds@);
    } else {
        assert(v@ + deps_if(b, ds@) =~= v@);
    }
}

/// The crates that the manifest of a service for `cfg` must list, in order.
pub fn required_dependencies(cfg: &Config) -> (r: Vec<Dependency>)
    ensures
        r@ == required(*cfg),
{
    let mut v = vec![
        Dependency::Axum,
        Dependency::ShuttleRuntime,
        Dependency::ShuttleAxum,
        Dependency::Tokio,
    ];
    push_deps(
        &mut v,
        cfg.auth || cfg.crud,
        vec![Dependency::Sqlx, Dependency::ShuttleSharedDb, Dependency::Chrono, Dependency::Serde],
    );
    push_deps(
        &mut v,
        cfg.auth,
        vec![Dependency::AxumExtra, Dependency::Time, Dependency::Bcrypt, Dependency::Rand],
    );
    push_deps(&mut v, cfg.secrets, vec![Dependency::ShuttleSecrets]);
    assert(v@ =~= required(*cfg));
    v
}

pub open spec fn dep_name(d: Dependency) -> Seq<char> {
    match d {
        Dependency::Axum => "axum"@,
        Dependency::ShuttleRuntime => "shuttle-runtime"@,
        Dependency::ShuttleAxum => "shuttle-axum"@,
        Dependency::Tokio => "tokio"@,
        Dependency::Sqlx => "sqlx"@,
        Dependency::ShuttleSharedDb => "shuttle-shared-db"@,
        Dependency::Chrono => "chrono"@,
        Dependency::Serde => "serde"@,
        Dependency::AxumExtra => "axum-extra"@,
        Dependency::Time => "time"@,
        Dependency::Bcrypt => "bcrypt"@,
        Dependency::Rand => "rand"@,
        Dependency::ShuttleSecrets => "shuttle-secrets"@,
    }
}

pub open spec fn dep_version(d: Dependency) -> Seq<char> {
    match d {
        Dependency::Axum => "0.6.18"@,
        Dependency::ShuttleRuntime => SHUTTLE_VERSION@,
        Dependency::ShuttleAxum => SHUTTLE_VERSION@,
        Dependency::Tokio => "1.28.2"@,
        Dependency::Sqlx => "0.7.1"@,
        Dependency::ShuttleSharedDb => SHUTTLE_VERSION@,
        Dependency::Chrono => "0.4.26"@,
        Dependency::Serde => "1.0.171"@,
        Dependency::AxumExtra => "0.7.7"@,
        Dependency::Time => "0.3.26"@,
        Dependency::Bcrypt => "0.15.0"@,
        Dependency::Rand => "0.8.5"@,
        Dependency::ShuttleSecrets => SHUTTLE_VERSION@,
    }
}

pub open spec fn dep_features(d: Dependency) -> Seq<Seq<char>> {
    match d {
        Dependency::Sqlx => seq!["runtime-tokio-native-tls"@, "postgres"@, "chrono"@],
        Dependency::ShuttleSharedDb => seq!["postgres"@],
        Dependency::Chrono => seq!["clock"@, "serde"@],
        Dependency::Serde => seq!["derive"@],
        Dependency::AxumExtra => seq!["cookie-private"@],
        _ => Seq::empty(),
    }
}

impl Dependency {
    /// The crate's name on the registry.
    pub fn name(self) -> (r: &'static str)
        ensures
            r@ == dep_name(self),
    {
        match self {
            Dependency::Axum => "axum",
            Dependency::ShuttleRuntime => "shuttle-runtime",
            Dependency::ShuttleAxum => "shuttle-axum",
            Dependency::Tokio => "tokio",
            Dependency::Sqlx => "sqlx",
            Dependency::ShuttleSharedDb => "shuttle-shared-db",
            Dependency::Chrono => "chrono",
            Dependency::Serde => "serde",
            Dependency::AxumExtra => "axum-extra",
            Dependency::Time => "time",
            Dependency::Bcrypt => "bcrypt",
            Dependency::Rand => "rand",
            Dependency::ShuttleSecrets => "shuttle-secrets",
        }
    }

    /// The version requirement to write.
    pub fn version(self) -> (r: &'static str)
        ensures
            r@ == dep_version(self),
    {
        match self {
            Dependency::Axum => "0.6.18",
            Dependency::ShuttleRuntime => SHUTTLE_VERSION,
            Dependency::ShuttleAxum => SHUTTLE_VERSION,
            Dependency::Tokio => "1.28.2",
            Dependency::Sqlx => "0.7.1",
            Dependency::ShuttleSharedDb => SHUTTLE_VERSION,
            Dependency::Chrono => "0.4.26",
            Dependency::Serde => "1.0.171",
            Dependency::AxumExtra => "0.7.7",
            Dependency::Time => "0.3.26",
            Dependency::Bcrypt => "0.15.0",
            Dependency::Rand => "0.8.5",
            Dependency::ShuttleSecrets => SHUTTLE_VERSION,
        }
    }

    /// The features to switch on; none for most crates.
    pub fn features(self) -> (r: Vec<&'static str>)
        ensures
            r@.len() == dep_features(self).len(),
            forall|i: int| 0 <= i < r@.len() ==> (#[trigger] r@[i])@ == dep_features(self)[i],
    {
        match self {
            Dependency::Sqlx => vec!["runtime-tokio-native-tls", "postgres", "chrono"],
            Dependency::ShuttleSharedDb => vec!["postgres"],
            Dependency::Chrono => vec!["clock", "serde"],
            Dependency::Serde => vec!["derive"],
            Dependency::AxumExtra => vec!["cookie-private"],
            _ => Vec::new(),
        }
    }
}

} // verus!
