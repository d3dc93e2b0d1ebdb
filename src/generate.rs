use vstd::prelude::*;
use crate::auth::{auth_middleware, auth_routes, AUTH_MIDDLEWARE_SRC, AUTH_ROUTES_SRC};
use crate::config::{well_formed, Config, Route};
use crate::deps::{required, required_dependencies, Dependency};
use crate::entry::{entry_imports, main_function, main_source};
use crate::handlers::{axum_crud_fns, handler_file, handler_imports};
use crate::migration::{down_script, migration_scripts, up_script, MigrationPair};
use crate::naming::valid_name;
use crate::render::{generated_source, parses, pretty_of, render, SynthesisError};
use crate::snippets::uses_state;

verus! {

/// The secrets file of a service that asked for one.
pub const SECRETS_TEMPLATE: &'static str = "KEY = \"VALUE\"";

/// The handler file of one resource.
pub struct HandlerArtifact {
    /// The resource, which is also the file's module name.
    pub name: String,
    /// The laid-out source.
    pub code: String,
    /// Import lines that go before the source.
    pub uses: String,
}

/// Everything one run produces.
pub struct Artifacts {
    pub handlers: Vec<HandlerArtifact>,
    pub auth_routes: Option<String>,
    pub auth_middleware: Option<String>,
    pub migration: Option<MigrationPair>,
    pub main_code: String,
    pub main_uses: String,
    pub secrets_file: Option<String>,
    pub dependencies: Vec<Dependency>,
}

impl Artifacts {
    /// The artifacts are those of configuration `cfg` with resources `rs`.
    pub open spec fn generated_from(&self, cfg: Config, rs: Seq<Route>) -> bool {
        &&& self.handlers@.len() == rs.len()
        &&& forall|i: int|
            0 <= i < rs.len() ==> {
                &&& (#[trigger] self.handlers@[i]).name@ == rs[i].name@
                &&& self.handlers@[i].code@ == pretty_of(
                    handler_file(rs[i].name@, rs[i].auth_required),
                )
                &&& self.handlers@[i].uses@ == handler_imports(rs[i].auth_required)
            }
        &&& (cfg.auth ==> (self.auth_routes matches Some(p) && p@ == pretty_of(AUTH_ROUTES_SRC@)))
        &&& (cfg.auth ==> (self.auth_middleware matches Some(p) && p@ == pretty_of(
            AUTH_MIDDLEWARE_SRC@,
        )))
        &&& (!cfg.auth ==> self.auth_routes is None && self.auth_middleware is None)
        &&& (uses_state(cfg) ==> (self.migration matches Some(m) && m.up@ == up_script(rs, cfg.auth)
            && m.down@ == down_script(rs, cfg.auth)))
        &&& (!uses_state(cfg) ==> self.migration is None)
        &&& self.main_code@ == pretty_of(main_source(cfg, rs))
        &&& self.main_uses@ == entry_imports(cfg, rs)
        &&& (cfg.secrets ==> (self.secrets_file matches Some(s) && s@ == SECRETS_TEMPLATE@))
        &&& (!cfg.secrets ==> self.secrets_file is None)
        &&& self.dependencies@ == required(cfg)
    }
}

/// Every file of the run parses: each handler file, the authentication files
/// when authentication is on, and the entry point.
pub open spec fn run_parses(cfg: Config, rs: Seq<Route>) -> bool {
    &&& forall|i: int|
        0 <= i < rs.len() ==> parses(handler_file((#[trigger] rs[i]).name@, rs[i].auth_required))
    &&& (cfg.auth ==> parses(AUTH_ROUTES_SRC@) && parses(AUTH_MIDDLEWARE_SRC@))
    &&& parses(main_source(cfg, rs))
}

/// Generates every file of a service for a well-formed configuration; stops
/// at the first file that does not parse, and succeeds when all of them do.
pub fn generate(cfg: Config, routes: Vec<Route>) -> (r: Result<Artifacts, SynthesisError>)
    requires
        well_formed(cfg, routes@),
    ensures
        r is Ok <==> run_parses(cfg, routes@),
        r matches Ok(a) ==> a.generated_from(cfg, routes@),
{
    let mut handlers: Vec<HandlerArtifact> = Vec::new();
    let mut i: usize = 0;
    while i < routes.len()
        invariant
            i <= routes@.len(),
            well_formed(cfg, routes@),
            handlers@.len() == i,
            forall|j: int|
                0 <= j < i ==> {
                    &&& (#[trigger] handlers@[j]).name@ == routes@[j].name@
                    &&& handlers@[j].code@ == pretty_of(
                        handler_file(routes@[j].name@, routes@[j].auth_required),
                    )
                    &&& handlers@[j].uses@ == handler_imports(routes@[j].auth_required)
                },
            forall|j: int|
                0 <= j < i ==> parses(
                    handler_file((#[trigger] routes@[j]).name@, routes@[j].auth_required),
                ),
        decreases routes@.len() - i,
    {
        let route = Route { name: String::from_str(routes[i].name.as_str()), auth_required: routes[i].auth_required };
        assert(valid_name(routes@[i as int].name@));
        let (code, uses) = match axum_crud_fns(route, routes[i].auth_required) {
            Ok(p) => p,
            Err(e) => {
                assert(!run_parses(cfg, routes@)) by {
                    assert(!parses(
                        handler_file(routes@[i as int].name@, routes@[i as int].auth_required),
                    ));
                }
                return Err(e);
            },
        };
        handlers.push(HandlerArtifact { name: String::from_str(routes[i].name.as_str()), code, uses });
        i = i + 1;
    }
    let (ar, am) = if cfg.auth {
        (Some(auth_routes()?), Some(auth_middleware()?))
    } else {
        (None, None)
    };
    let migration = if cfg.crud || cfg.auth {
        Some(migration_scripts(&routes, cfg.auth))
    } else {
        None
    };
    let secrets_file = if cfg.secrets {
        Some(String::from_str(SECRETS_TEMPLATE))
    } else {
        None
    };
    let dependencies = required_dependencies(&cfg);
    let ghost c = cfg;
    let ghost rs = routes@;
    let (main_code, main_uses) = main_function(cfg, routes)?;
    let a = Artifacts {
        handlers,
        auth_routes: ar,
        auth_middleware: am,
        migration,
        main_code,
        main_uses,
        secrets_file,
        dependencies,
    };
    assert(a.generated_from(c, rs));
    Ok(a)
}

/// The declarations of modules `names`, one per line.
pub open spec fn module_decls(names: Seq<String>) -> Seq<char>
    decreases names.len(),
{
    if names.len() == 0 {
        Seq::empty()
    } else {
        module_decls(names.drop_last()) + "pub mod "@ + names.last()@ + ";\n"@
    }
}

/// The laid-out file that declares the sibling modules `names`.
pub fn module_list(names: &Vec<String>) -> (r: Result<String, SynthesisError>)
    requires
        forall|i: int| 0 <= i < names@.len() ==> valid_name(#[trigger] names@[i]@),
    ensures
        r is Ok <==> parses(module_decls(names@)),
        r matches Ok(p) ==> p@ == pretty_of(module_decls(names@)),
{
    let mut s = String::new();
    let mut i: usize = 0;
    assert(names@.take(0) =~= Seq::<String>::empty());
    while i < names.len()
        invariant
            i <= names@.len(),
            s@ == module_decls(names@.take(i as int)),
        decreases names@.len() - i,
    {
        s.append("pub mod ");
        s.append(names[i].as_str());
        s.append(";\n");
        assert(names@.take(i + 1).drop_last() =~= names@.take(i as int));
        i = i + 1;
    }
    assert(names@.take(names@.len() as int) =~= names@);
    assert(generated_source(s@));
    render(s.as_str())
}

} // verus!
