use vstd::prelude::*;
use crate::config::{names_valid, Route};
use crate::naming::{
    create_name, delete_name, derive_names, get_all_name, get_one_name, path_literal,
    router_name, update_name, valid_name,
};
use crate::render::{only_if, text_when};

verus! {

pub const GUARD_LAYER: &'static str =
    "\n    .layer(from_fn_with_state(state.clone(), check_authed_cookies))";

/// The router of resource `n`: list and create at `/`, get, update and delete
/// at `/:id`, behind the authentication guard when `guarded`.
pub open spec fn router_def(n: Seq<char>, guarded: bool) -> Seq<char> {
    "let "@ + router_name(n) + " = Router::new()\n    .route(\"/\", get("@ + get_all_name(n)
        + ").post("@ + create_name(n) + "))\n    .route(\"/:id\", get("@ + get_one_name(n)
        + ").patch("@ + update_name(n) + ").delete("@ + delete_name(n) + "))"@ + only_if(
        guarded,
        GUARD_LAYER@,
    ) + ";\n"@
}

/// Mounts the router of resource `n` under its path.
pub open spec fn nest_expr(n: Seq<char>) -> Seq<char> {
    "\n    .nest(\""@ + path_literal(n) + "\", "@ + router_name(n) + ")"@
}

/// Imports the five handlers of resource `n` from its module.
pub open spec fn route_import(n: Seq<char>) -> Seq<char> {
    "use crate::routes::"@ + n + "::{"@ + get_all_name(n) + ", "@ + get_one_name(n) + ", "@
        + create_name(n) + ", "@ + update_name(n) + ", "@ + delete_name(n) + "};\n"@
}

/// The texts of `v`, one after another.
pub open spec fn concat_all(v: Seq<String>) -> Seq<char>
    decreases v.len(),
{
    if v.len() == 0 {
        Seq::empty()
    } else {
        concat_all(v.drop_last()) + v.last()@
    }
}

/// The texts of `v`, one after another.
pub fn join_all(v: &Vec<String>) -> (r: String)
    ensures
        r@ == concat_all(v@),
{
    let mut r = String::new();
    let mut i: usize = 0;
    assert(v@.take(0) =~= Seq::<String>::empty());
    while i < v.len()
        invariant
            i <= v@.len(),
            r@ == concat_all(v@.take(i as int)),
        decreases v@.len() - i,
    {
        r.append(v[i].as_str());
        assert(v@.take(i + 1).drop_last() =~= v@.take(i as int));
        i = i + 1;
    }
    assert(v@.take(v@.len() as int) =~= v@);
    r
}

/// The texts that `f` gives for each resource of `rs`, one after another.
pub open spec fn concat_map(rs: Seq<Route>, f: spec_fn(Route) -> Seq<char>) -> Seq<char>
    decreases rs.len(),
{
    if rs.len() == 0 {
        Seq::empty()
    } else {
        concat_map(rs.drop_last(), f) + f(rs.last())
    }
}

/// Joining texts made one per resource is the same as making the joined text
/// per resource.
pub proof fn lemma_concat_all_map(v: Seq<String>, rs: Seq<Route>, f: spec_fn(Route) -> Seq<char>)
    requires
        v.len() == rs.len(),
        forall|i: int| 0 <= i < v.len() ==> (#[trigger] v[i])@ == f(rs[i]),
    ensures
        concat_all(v) == concat_map(rs, f),
    decreases v.len(),
{
    if v.len() > 0 {
        let (a, b) = (v.drop_last(), rs.drop_last());
        assert forall|i: int| 0 <= i < a.len() implies (#[trigger] a[i])@ == f(b[i]) by {
            assert(a[i] == v[i]);
        }
        lemma_concat_all_map(a, b, f);
    }
}

/// The router definitions of `rs`, in order.
pub open spec fn routers_text(rs: Seq<Route>) -> Seq<char> {
    concat_map(rs, |r: Route| router_def(r.name@, r.auth_required))
}

/// The mount expressions of `rs`, in order.
pub open spec fn nests_text(rs: Seq<Route>) -> Seq<char> {
    concat_map(rs, |r: Route| nest_expr(r.name@))
}

/// The handler imports of `rs`, in order.
pub open spec fn route_imports_text(rs: Seq<Route>) -> Seq<char> {
    concat_map(rs, |r: Route| route_import(r.name@))
}

/// What the route table holds for each resource, in input order: its router
/// definition, the expression that mounts it, and the import of its handlers.
pub struct RouteTable {
    pub routers: Vec<String>,
    pub nests: Vec<String>,
    pub imports: Vec<String>,
}

impl RouteTable {
    /// The table lists the resources `rs`, one entry each, in order.
    pub open spec fn lists(&self, rs: Seq<Route>) -> bool {
        &&& self.routers@.len() == rs.len()
        &&& self.nests@.len() == rs.len()
        &&& self.imports@.len() == rs.len()
        &&& forall|i: int|
            0 <= i < rs.len() ==> (#[trigger] self.routers@[i])@ == router_def(
                rs[i].name@,
                rs[i].auth_required,
            )
        &&& forall|i: int| 0 <= i < rs.len() ==> (#[trigger] self.nests@[i])@ == nest_expr(rs[i].name@)
        &&& forall|i: int|
            0 <= i < rs.len() ==> (#[trigger] self.imports@[i])@ == route_import(rs[i].name@)
    }
}

fn router_of(n: &str, guarded: bool) -> (r: String)
    requires
        valid_name(n@),
    ensures
        r@ == router_def(n@, guarded),
{
    let names = derive_names(n);
    let mut s = String::from_str("let ");
    s.append(names.router_name.as_str());
    s.append(" = Router::new()\n    .route(\"/\", get(");
    s.append(names.get_all_fn.as_str());
    s.append(").post(");
    s.append(names.create_fn.as_str());
    s.append("))\n    .route(\"/:id\", get(");
    s.append(names.get_one_fn.as_str());
    s.append(").patch(");
    s.append(names.update_fn.as_str());
    s.append(").delete(");
    s.append(names.delete_fn.as_str());
    s.append("))");
    s.append(text_when(guarded, GUARD_LAYER).as_str());
    s.append(";\n");
    s
}

fn nest_of(n: &str) -> (r: String)
    requires
        valid_name(n@),
    ensures
        r@ == nest_expr(n@),
{
    let names = derive_names(n);
    let mut s = String::from_str("\n    .nest(\"");
    s.append(names.path_literal.as_str());
    s.append("\", ");
    s.append(names.router_name.as_str());
    s.append(")");
    s
}

fn import_of(n: &str) -> (r: String)
    requires
        valid_name(n@),
    ensures
        r@ == route_import(n@),
{
    let names = derive_names(n);
    let mut s = String::from_str("use crate::routes::");
    s.append(n);
    s.append("::{");
    s.append(names.get_all_fn.as_str());
    s.append(", ");
    s.append(names.get_one_fn.as_str());
    s.append(", ");
    s.append(names.create_fn.as_str());
    s.append(", ");
    s.append(names.update_fn.as_str());
    s.append(", ");
    s.append(names.delete_fn.as_str());
    s.append("};\n");
    s
}

/// The route table of `routes`: per resource, in input order, its router, its
/// mount expression and its handler import.
pub fn axum_crud_routes(routes: Vec<Route>) -> (r: RouteTable)
    requires
        names_valid(routes@),
    ensures
        r.lists(routes@),
        concat_all(r.routers@) == routers_text(routes@),
        concat_all(r.nests@) == nests_text(routes@),
        concat_all(r.imports@) == route_imports_text(routes@),
{
    let mut t = RouteTable { routers: Vec::new(), nests: Vec::new(), imports: Vec::new() };
    let mut i: usize = 0;
    while i < routes.len()
        invariant
            i <= routes@.len(),
            names_valid(routes@),
            t.lists(routes@.take(i as int)),
        decreases routes@.len() - i,
    {
        let n = routes[i].name.as_str();
        assert(valid_name(routes@[i as int].name@));
        t.routers.push(router_of(n, routes[i].auth_required));
        t.nests.push(nest_of(n));
        t.imports.push(import_of(n));
        i = i + 1;
    }
    assert(routes@.take(routes@.len() as int) =~= routes@);
    proof {
        lemma_concat_all_map(t.routers@, routes@, |r: Route| router_def(r.name@, r.auth_required));
        lemma_concat_all_map(t.nests@, routes@, |r: Route| nest_expr(r.name@));
        lemma_concat_all_map(t.imports@, routes@, |r: Route| route_import(r.name@));
    }
    t
}

} // verus!
