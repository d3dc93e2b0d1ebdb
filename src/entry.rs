use vstd::prelude::*;
use crate::migration::reserved_free;
use crate::auth::{auth_router, AUTH_ROUTER};
use crate::config::{guards_need_auth, names_valid, Config, Route};
use crate::render::{generated_source, only_if, parses, pretty_of, render, text_when, SynthesisError};
use crate::routes::{
    axum_crud_routes, join_all, nests_text, route_imports_text, routers_text,
};
use crate::snippets::{
    app_state_text, state_init_text, state_snippets, uses_state, DB_PARAM, NO_STATE, WITH_STATE,
};

verus! {

pub const MAIN_HEAD: &'static str = "use axum::{routing::get, Router};\nmod routes;\n\n";

pub const MAIN_SIGNATURE: &'static str = "\n#[shuttle_runtime::main]\npub async fn main(\n";

pub const SECRETS_PARAM: &'static str = "    #[shuttle_secrets::Secrets] secrets: SecretStore,\n";

pub const MAIN_RESULT: &'static str = ") -> shuttle_axum::ShuttleAxum {\n";

pub const ROUTER_START: &'static str = "let router = Router::new()";

pub const AUTH_NEST: &'static str = "\n    .nest(\"/auth\", auth_router)";

pub const DEFAULT_ROUTE: &'static str = "\n    .route(\"/\", get(hello_world))";

pub const MAIN_TAIL: &'static str =
    "\n\n    Ok(router.into())\n}\n\npub async fn hello_world() -> &'static str {\n    \"Hello world!\"\n}\n";

/// Something the entry point uses from outside its own file.
#[derive(Clone, Copy, Debug, PartialEq, Eq, Structural)]
pub enum Capability {
    /// The layer that runs the guard before a handler.
    GuardLayer,
    /// The guard itself.
    Guard,
    /// The database pool type.
    DbPool,
    /// The routing function for POST endpoints.
    PostRouting,
    /// The login and registration handlers.
    AuthRoutes,
    /// The cookie signing key.
    CookieKey,
    /// Extraction of a part of the shared state.
    FromRef,
    /// The module that holds the guard.
    MiddlewareModule,
    /// The secrets store.
    SecretStore,
}

/// The capabilities that only an authenticated service uses.
pub open spec fn auth_specific(c: Capability) -> bool {
    match c {
        Capability::DbPool | Capability::SecretStore => false,
        _ => true,
    }
}

/// The line of the entry point that brings capability `c` into scope.
pub open spec fn capability_line(c: Capability) -> Seq<char> {
    match c {
        Capability::GuardLayer => "use axum::middleware::from_fn_with_state;\n"@,
        Capability::Guard => "use crate::middleware::auth::check_authed_cookies;\n"@,
        Capability::DbPool => "use sqlx::PgPool;\n"@,
        Capability::PostRouting => "use axum::routing::post;\n"@,
        Capability::AuthRoutes => "use crate::routes::auth::{login, register};\n"@,
        Capability::CookieKey => "use axum_extra::extract::cookie::Key;\n"@,
        Capability::FromRef => "use axum::extract::FromRef;\n"@,
        Capability::MiddlewareModule => "mod middleware;\n"@,
        Capability::SecretStore => "use shuttle_secrets::SecretStore;\n"@,
    }
}

/// The line that brings `c` into scope.
pub fn capability_use(c: Capability) -> (r: &'static str)
    ensures
        r@ == capability_line(c),
{
    match c {
        Capability::GuardLayer => "use axum::middleware::from_fn_with_state;\n",
        Capability::Guard => "use crate::middleware::auth::check_authed_cookies;\n",
        Capability::DbPool => "use sqlx::PgPool;\n",
        Capability::PostRouting => "use axum::routing::post;\n",
        Capability::AuthRoutes => "use crate::routes::auth::{login, register};\n",
        Capability::CookieKey => "use axum_extra::extract::cookie::Key;\n",
        Capability::FromRef => "use axum::extract::FromRef;\n",
        Capability::MiddlewareModule => "mod middleware;\n",
        Capability::SecretStore => "use shuttle_secrets::SecretStore;\n",
    }
}

/// Some resource of `rs` sits behind the guard.
pub open spec fn any_guarded(rs: Seq<Route>) -> bool {
    exists|i: int| 0 <= i < rs.len() && #[trigger] rs[i].auth_required
}

pub open spec fn caps_if(b: bool, cs: Seq<Capability>) -> Seq<Capability> {
    if b {
        cs
    } else {
        Seq::empty()
    }
}

/// What the entry point needs, each once: the guard when authentication is
/// on and a resource is protected, the pool when there is state, the authentication pieces, and
/// the secrets store.
pub open spec fn entry_caps(cfg: Config, rs: Seq<Route>) -> Seq<Capability> {
    caps_if(cfg.auth && any_guarded(rs), seq![Capability::GuardLayer, Capability::Guard]) + caps_if(
        uses_state(cfg),
        seq![Capability::DbPool],
    ) + caps_if(
        cfg.auth,
        seq![
            Capability::PostRouting,
            Capability::AuthRoutes,
            Capability::CookieKey,
            Capability::FromRef,
            Capability::MiddlewareModule,
        ],
    ) + caps_if(cfg.secrets, seq![Capability::SecretStore])
}

/// The lines that bring `cs` into scope, in order.
pub open spec fn capability_lines(cs: Seq<Capability>) -> Seq<char>
    decreases cs.len(),
{
    if cs.len() == 0 {
        Seq::empty()
    } else {
        capability_lines(cs.drop_last()) + capability_line(cs.last())
    }
}

/// The import lines that go before the entry point: the handlers of each
/// resource, then each capability.
pub open spec fn entry_imports(cfg: Config, rs: Seq<Route>) -> Seq<char> {
    route_imports_text(rs) + capability_lines(entry_caps(cfg, rs))
}

/// The entry point's source: the state type, the entry function with its
/// parameters, the state, each router, the router graph with every mount, the
/// default route, and the binding to the state.
pub open spec fn main_source(cfg: Config, rs: Seq<Route>) -> Seq<char> {
    let st = uses_state(cfg);
    MAIN_HEAD@ + only_if(st, app_state_text(cfg.auth)) + MAIN_SIGNATURE@ + only_if(st, DB_PARAM@)
        + only_if(cfg.secrets, SECRETS_PARAM@) + MAIN_RESULT@ + only_if(st, state_init_text(cfg.auth))
        + routers_text(rs) + only_if(cfg.auth, AUTH_ROUTER@) + ROUTER_START@ + nests_text(rs)
        + only_if(cfg.auth, AUTH_NEST@) + DEFAULT_ROUTE@ + (if st {
        WITH_STATE@
    } else {
        NO_STATE@
    }) + MAIN_TAIL@
}

fn push_caps(v: &mut Vec<Capability>, b: bool, cs: Vec<Capability>)
    ensures
        final(v)@ == old(v)@ + caps_if(b, cs@),
{
    if b {
        let mut i: usize = 0;
        let ghost start = v@;
        while i < cs.len()
            invariant
                i <= cs@.len(),
                v@ == start + cs@.take(i as int),
            decreases cs@.len() - i,
        {
            v.push(cs[i]);
            assert(start + cs@.take(i + 1) =~= start + cs@.take(i as int) + seq![cs@[i as int]]);
            i = i + 1;
        }
        assert(cs@.take(cs@.len() as int) =~= cs@);
    } else {
        assert(v@ + caps_if(b, cs@) =~= v@);
    }
}

fn has_guarded(routes: &Vec<Route>) -> (r: bool)
    ensures
        r == any_guarded(routes@),
{
    let mut i: usize = 0;
    while i < routes.len()
        invariant
            i <= routes@.len(),
            forall|j: int| 0 <= j < i ==> !(#[trigger] routes@[j]).auth_required,
        decreases routes@.len() - i,
    {
        if routes[i].auth_required {
            return true;
        }
        i = i + 1;
    }
    false
}

/// The capabilities that the entry point for `cfg` and `routes` needs.
pub fn entry_capabilities(cfg: &Config, routes: &Vec<Route>) -> (r: Vec<Capability>)
    ensures
        r@ == entry_caps(*cfg, routes@),
{
    let mut v: Vec<Capability> = Vec::new();
    push_caps(&mut v, cfg.auth && has_guarded(routes), vec![Capability::GuardLayer, Capability::Guard]);
    push_caps(&mut v, cfg.auth || cfg.crud, vec![Capability::DbPool]);
    push_caps(
        &mut v,
        cfg.auth,
        vec![
            Capability::PostRouting,
            Capability::AuthRoutes,
            Capability::CookieKey,
            Capability::FromRef,
            Capability::MiddlewareModule,
        ],
    );
    push_caps(&mut v, cfg.secrets, vec![Capability::SecretStore]);
    assert(v@ =~= entry_caps(*cfg, routes@));
    v
}

/// The lines that bring `cs` into scope.
pub fn capability_uses(cs: &Vec<Capability>) -> (r: String)
    ensures
        r@ == capability_lines(cs@),
{
    let mut r = String::new();
    let mut i: usize = 0;
    assert(cs@.take(0) =~= Seq::<Capability>::empty());
    while i < cs.len()
        invariant
            i <= cs@.len(),
            r@ == capability_lines(cs@.take(i as int)),
        decreases cs@.len() - i,
    {
        r.append(capability_use(cs[i]));
        assert(cs@.take(i + 1).drop_last() =~= cs@.take(i as int));
        i = i + 1;
    }
    assert(cs@.take(cs@.len() as int) =~= cs@);
    r
}

fn opt_text(o: &Option<String>) -> (r: String)
    ensures
        r@ == match o {
            Some(x) => x@,
            None => Seq::empty(),
        },
{
    match o {
        Some(x) => x.clone(),
        None => String::new(),
    }
}

/// The entry point's source text and the import lines that go before it.
pub fn main_parts(cfg: Config, routes: Vec<Route>) -> (r: (String, String))
    requires
        names_valid(routes@),
        guards_need_auth(cfg, routes@),
        reserved_free(routes@, cfg.auth),
    ensures
        r.0@ == main_source(cfg, routes@),
        r.1@ == entry_imports(cfg, routes@),
{
    let caps = entry_capabilities(&cfg, &routes);
    let auth = cfg.auth;
    let secrets = cfg.secrets;
    let ghost c = cfg;
    let ghost rs = routes@;
    let st = state_snippets(cfg);
    let table = axum_crud_routes(routes);
    let mut uses = join_all(&table.imports);
    uses.append(capability_uses(&caps).as_str());
    let mut s = String::from_str(MAIN_HEAD);
    s.append(opt_text(&st.app_state).as_str());
    s.append(MAIN_SIGNATURE);
    s.append(opt_text(&st.db_param).as_str());
    s.append(text_when(secrets, SECRETS_PARAM).as_str());
    s.append(MAIN_RESULT);
    s.append(opt_text(&st.state_declare).as_str());
    s.append(join_all(&table.routers).as_str());
    let ar = if auth {
        auth_router()
    } else {
        String::new()
    };
    s.append(ar.as_str());
    s.append(ROUTER_START);
    s.append(join_all(&table.nests).as_str());
    s.append(text_when(auth, AUTH_NEST).as_str());
    s.append(DEFAULT_ROUTE);
    s.append(st.with_state.as_str());
    s.append(MAIN_TAIL);
    assert(uses@ == entry_imports(c, rs));
    assert(s@ =~= main_source(c, rs));
    (s, uses)
}

/// The laid-out entry point and the import lines that go before it.
pub fn main_function(cfg: Config, routes: Vec<Route>) -> (r: Result<(String, String), SynthesisError>)
    requires
        names_valid(routes@),
        guards_need_auth(cfg, routes@),
        reserved_free(routes@, cfg.auth),
    ensures
        r is Ok <==> parses(main_source(cfg, routes@)),
        r matches Ok((code, uses)) ==> code@ == pretty_of(main_source(cfg, routes@))
            && uses@ == entry_imports(cfg, routes@),
{
    let ghost c = cfg;
    let ghost rs = routes@;
    let (src, uses) = main_parts(cfg, routes);
    assert(generated_source(src@)) by {
        assert(src@ == main_source(c, rs));
    }
    let code = render(src.as_str())?;
    Ok((code, uses))
}

} // verus!
