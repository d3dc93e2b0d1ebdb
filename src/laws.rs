use vstd::prelude::*;
use crate::config::{names_distinct, reserved_name, well_formed, Config, Route};
use crate::deps::{auth_only, required};
use crate::entry::{any_guarded, auth_specific, caps_if, entry_caps, Capability};
use crate::snippets::{app_state_text, state_init_text, uses_state, APP_STATE_HEAD};
use crate::generate::Artifacts;
use crate::handlers::handler_imports;
use crate::migration::{
    created_tables, creates_text, down_script, drops_text, dropped_tables, reserved_free,
    resource_tables, table_name, up_script, Table, SESSIONS_TABLE, USERS_TABLE,
};
use crate::naming::{
    ascii_upper, handler_names, router_name, is_lower_letter, struct_name, valid_name, ResourceNames,
};
use crate::queries::{operations, QueryGen};
use crate::render::only_if;
use crate::routes::{concat_map, nest_expr, router_def, routers_text, RouteTable};

verus! {

/// The five handler names of a resource differ from one another; the handlers
/// that the handler file declares carry exactly these names, in operation
/// order; and the derived names, which the router uses, are the same ones.
pub proof fn lemma_names_agree(n: Seq<char>, names: ResourceNames)
    requires
        valid_name(n),
        names.names_of(n),
    ensures
        forall|i: int, j: int|
            0 <= i < 5 && 0 <= j < 5 && i != j ==> handler_names(n)[i] != handler_names(n)[j],
        forall|k: int| 0 <= k < 5 ==> (#[trigger] operations(n)[k]).fn_name == handler_names(n)[k],
        handler_names(n) == seq![
            names.get_all_fn@,
            names.get_one_fn@,
            names.create_fn@,
            names.update_fn@,
            names.delete_fn@,
        ],
        forall|g: bool|
            #[trigger] router_def(n, g) == "let "@ + names.router_name@
                + " = Router::new()\n    .route(\"/\", get("@ + names.get_all_fn@ + ").post("@
                + names.create_fn@ + "))\n    .route(\"/:id\", get("@ + names.get_one_fn@
                + ").patch("@ + names.update_fn@ + ").delete("@ + names.delete_fn@ + "))"@
                + only_if(g, crate::routes::GUARD_LAYER@) + ";\n"@,
{
    reveal_strlit("get_all_");
    reveal_strlit("get_");
    reveal_strlit("_by_id");
    reveal_strlit("create_");
    reveal_strlit("update_");
    reveal_strlit("delete_");
    let h = handler_names(n);
    assert(h[0].len() == n.len() + 8);
    assert(h[1].len() == n.len() + 10);
    assert(h[2].len() == n.len() + 7);
    assert(h[3].len() == n.len() + 13);
    assert(h[4].len() == n.len() + 13);
    assert(h[3][0] == 'u');
    assert(h[4][0] == 'd');
}

/// Deriving the names of one resource twice gives the same names.
pub proof fn lemma_names_deterministic(n: Seq<char>, a: ResourceNames, b: ResourceNames)
    requires
        a.names_of(n),
        b.names_of(n),
    ensures
        a.struct_name@ == b.struct_name@,
        a.router_name@ == b.router_name@,
        a.get_all_fn@ == b.get_all_fn@,
        a.get_one_fn@ == b.get_one_fn@,
        a.create_fn@ == b.create_fn@,
        a.update_fn@ == b.update_fn@,
        a.delete_fn@ == b.delete_fn@,
        a.path_literal@ == b.path_literal@,
{
}

/// A route table has one router definition and one mount expression per
/// resource, in the order of the resources, and entry `i` of both belongs to
/// resource `i`.
pub proof fn lemma_route_table_counts(t: RouteTable, rs: Seq<Route>)
    requires
        t.lists(rs),
    ensures
        t.routers@.len() == t.nests@.len(),
        t.nests@.len() == rs.len(),
        forall|i: int|
            0 <= i < rs.len() ==> (#[trigger] t.routers@[i])@ == router_def(
                rs[i].name@,
                rs[i].auth_required,
            ) && t.nests@[i]@ == nest_expr(rs[i].name@),
{
}

/// Without authentication nothing authentication-specific is generated: no
/// guard on any router, no guard import in any handler file, no
/// authentication capability in the entry point, no authentication crate in
/// the manifest, no user or session table, and no authentication files.
pub proof fn lemma_auth_off(cfg: Config, rs: Seq<Route>, a: Artifacts)
    requires
        well_formed(cfg, rs),
        !cfg.auth,
        a.generated_from(cfg, rs),
    ensures
        forall|i: int| 0 <= i < rs.len() ==> !(#[trigger] rs[i]).auth_required,
        routers_text(rs) == concat_map(rs, |r: Route| router_def(r.name@, false)),
        forall|i: int| 0 <= i < rs.len() ==> handler_imports(#[trigger] rs[i].auth_required)
            =~= Seq::<char>::empty(),
        forall|i: int|
            0 <= i < entry_caps(cfg, rs).len() ==> !auth_specific(#[trigger] entry_caps(cfg, rs)[i]),
        forall|i: int| 0 <= i < required(cfg).len() ==> !auth_only(#[trigger] required(cfg)[i]),
        created_tables(rs, cfg.auth) == resource_tables(rs),
        dropped_tables(rs, cfg.auth) == resource_tables(rs),
        a.auth_routes is None,
        a.auth_middleware is None,
        app_state_text(cfg.auth) == APP_STATE_HEAD@ + "}\n"@,
        state_init_text(cfg.auth) == "let state = AppState { db"@ + " };\n"@,
{
    lemma_routers_unguarded(rs);
    assert(!any_guarded(rs));
    assert(app_state_text(cfg.auth) =~= APP_STATE_HEAD@ + "}\n"@);
    assert(state_init_text(cfg.auth) =~= "let state = AppState { db"@ + " };\n"@);
    let caps = entry_caps(cfg, rs);
    assert forall|i: int| 0 <= i < caps.len() implies !auth_specific(#[trigger] caps[i]) by {
        if cfg.secrets && cfg.crud {
            assert(caps =~= seq![crate::entry::Capability::DbPool, crate::entry::Capability::SecretStore]);
        } else if cfg.secrets {
            assert(caps =~= seq![crate::entry::Capability::SecretStore]);
        } else if cfg.crud {
            assert(caps =~= seq![crate::entry::Capability::DbPool]);
        } else {
            assert(caps =~= Seq::<crate::entry::Capability>::empty());
        }
    }
    let ds = required(cfg);
    assert forall|i: int| 0 <= i < ds.len() implies !auth_only(#[trigger] ds[i]) by {
        assert(i < 4 ==> ds[i] == seq![
            crate::deps::Dependency::Axum,
            crate::deps::Dependency::ShuttleRuntime,
            crate::deps::Dependency::ShuttleAxum,
            crate::deps::Dependency::Tokio,
        ][i]);
    }
}

/// The entry point imports the guard and its layer exactly when
/// authentication is on and some resource is protected.
pub proof fn lemma_guard_imports(cfg: Config, rs: Seq<Route>)
    ensures
        entry_caps(cfg, rs).contains(Capability::Guard) <==> cfg.auth && any_guarded(rs),
        entry_caps(cfg, rs).contains(Capability::GuardLayer) <==> cfg.auth && any_guarded(rs),
{
    let g = caps_if(cfg.auth && any_guarded(rs), seq![Capability::GuardLayer, Capability::Guard]);
    let b = caps_if(uses_state(cfg), seq![Capability::DbPool]);
    let c = caps_if(
        cfg.auth,
        seq![
            Capability::PostRouting,
            Capability::AuthRoutes,
            Capability::CookieKey,
            Capability::FromRef,
            Capability::MiddlewareModule,
        ],
    );
    let d = caps_if(cfg.secrets, seq![Capability::SecretStore]);
    let all = entry_caps(cfg, rs);
    assert(all == g + b + c + d);
    let rest = b + c + d;
    assert(all =~= g + rest);
    assert forall|i: int| 0 <= i < rest.len() implies #[trigger] rest[i] != Capability::Guard
        && rest[i] != Capability::GuardLayer by {
        if i < b.len() {
            assert(rest[i] == b[i]);
        } else if i < b.len() + c.len() {
            assert(rest[i] == c[i - b.len()]);
        } else {
            assert(rest[i] == d[i - b.len() - c.len()]);
        }
    }
    if cfg.auth && any_guarded(rs) {
        assert(all[0] == Capability::GuardLayer);
        assert(all[1] == Capability::Guard);
    } else {
        assert(all =~= rest);
    }
}

/// With no protected resource, each router is the unguarded one.
proof fn lemma_routers_unguarded(rs: Seq<Route>)
    requires
        forall|i: int| 0 <= i < rs.len() ==> !(#[trigger] rs[i]).auth_required,
    ensures
        routers_text(rs) == concat_map(rs, |r: Route| router_def(r.name@, false)),
    decreases rs.len(),
{
    if rs.len() > 0 {
        let p = rs.drop_last();
        assert forall|i: int| 0 <= i < p.len() implies !(#[trigger] p[i]).auth_required by {
            assert(p[i] == rs[i]);
        }
        lemma_routers_unguarded(p);
        assert(!rs[rs.len() - 1].auth_required);
    }
}

/// The reverse script undoes the forward one. The forward script is one
/// create statement per created table and the reverse script one drop
/// statement per dropped table; both list the same tables, the resource
/// tables in the same order, and the session table is dropped before the user
/// table it refers to. With distinct resource names that leave the
/// authentication names free, no two created tables share a name, so every
/// create statement takes effect and every drop statement finds its table.
pub proof fn lemma_migration_inverse(rs: Seq<Route>, auth: bool)
    requires
        names_distinct(rs),
        reserved_free(rs, auth),
    ensures
        up_script(rs, auth) == creates_text(created_tables(rs, auth)),
        down_script(rs, auth) == drops_text(dropped_tables(rs, auth)),
        created_tables(rs, auth).to_set() == dropped_tables(rs, auth).to_set(),
        created_tables(rs, auth).len() == dropped_tables(rs, auth).len(),
        forall|i: int, j: int|
            0 <= i < j < created_tables(rs, auth).len() ==> table_name(
                #[trigger] created_tables(rs, auth)[i],
            ) != table_name(#[trigger] created_tables(rs, auth)[j]),
        dropped_tables(rs, auth).take(rs.len() as int) == created_tables(rs, auth).take(
            rs.len() as int,
        ),
        dropped_tables(rs, auth).take(rs.len() as int) == resource_tables(rs),
        auth ==> dropped_tables(rs, auth)[rs.len() as int] == Table::Sessions
            && dropped_tables(rs, auth)[rs.len() + 1int] == Table::Users,
{
    let c = created_tables(rs, auth);
    let d = dropped_tables(rs, auth);
    let ts = resource_tables(rs);
    assert(d.take(rs.len() as int) =~= ts);
    assert(c.take(rs.len() as int) =~= ts);
    assert forall|t: Table| c.contains(t) <==> d.contains(t) by {
        if c.contains(t) {
            let i = choose|i: int| 0 <= i < c.len() && c[i] == t;
            if i < ts.len() {
                assert(d[i] == t);
            } else if i == ts.len() {
                assert(d[i + 1] == t);
            } else {
                assert(d[i - 1] == t);
            }
        }
        if d.contains(t) {
            let i = choose|i: int| 0 <= i < d.len() && d[i] == t;
            if i < ts.len() {
                assert(c[i] == t);
            } else if i == ts.len() {
                assert(c[i + 1] == t);
            } else {
                assert(c[i - 1] == t);
            }
        }
    }
    assert(c.to_set() =~= d.to_set());
    reveal_strlit("users");
    reveal_strlit("usersessions");
    assert(USERS_TABLE@ != SESSIONS_TABLE@) by {
        assert(USERS_TABLE@.len() != SESSIONS_TABLE@.len());
    }
    assert forall|i: int, j: int| 0 <= i < j < c.len() implies table_name(#[trigger] c[i])
        != table_name(#[trigger] c[j]) by {
        if j < ts.len() {
            assert(rs[i].name@ != rs[j].name@);
        } else if i < ts.len() {
            assert(!reserved_name(rs[i].name@));
        }
    }
}

/// Each router of the entry point is bound once: with distinct resource names
/// that leave the authentication names free, the resource routers have
/// distinct names, and none is named like the authentication router.
pub proof fn lemma_routers_bound_once(rs: Seq<Route>, auth: bool)
    requires
        names_distinct(rs),
        reserved_free(rs, auth),
    ensures
        forall|i: int, j: int|
            0 <= i < j < rs.len() ==> router_name(#[trigger] rs[i].name@) != router_name(
                #[trigger] rs[j].name@,
            ),
        auth ==> forall|i: int|
            0 <= i < rs.len() ==> router_name(#[trigger] rs[i].name@) != "auth_router"@,
{
    assert forall|i: int, j: int| 0 <= i < j < rs.len() implies router_name(
        #[trigger] rs[i].name@,
    ) != router_name(#[trigger] rs[j].name@) by {
        lemma_suffix_cancels(rs[i].name@, rs[j].name@, "_router"@);
    }
    if auth {
        reveal_strlit("auth_router");
        reveal_strlit("_router");
        reveal_strlit("auth");
        assert("auth"@ + "_router"@ =~= "auth_router"@);
        assert forall|i: int| 0 <= i < rs.len() implies router_name(#[trigger] rs[i].name@)
            != "auth_router"@ by {
            assert(!reserved_name(rs[i].name@));
            assert(crate::config::AUTH_MODULE@ == "auth"@);
            lemma_suffix_cancels(rs[i].name@, "auth"@, "_router"@);
        }
    }
}

/// Equal texts with equal endings have equal beginnings.
proof fn lemma_suffix_cancels(a: Seq<char>, b: Seq<char>, s: Seq<char>)
    ensures
        a + s == b + s ==> a == b,
{
    if a + s == b + s {
        assert((a + s).len() == (b + s).len());
        assert(a.len() == b.len());
        assert((a + s).subrange(0, a.len() as int) =~= a);
        assert((b + s).subrange(0, b.len() as int) =~= b);
    }
}

/// Building the operation descriptors of a name twice gives descriptors that
/// agree field for field.
pub proof fn lemma_operations_deterministic(n: Seq<char>, a: Seq<QueryGen>, b: Seq<QueryGen>)
    requires
        a.len() == 5,
        b.len() == 5,
        forall|i: int| 0 <= i < 5 ==> (#[trigger] a[i])@ == operations(n)[i],
        forall|i: int| 0 <= i < 5 ==> (#[trigger] b[i])@ == operations(n)[i],
    ensures
        forall|i: int| 0 <= i < 5 ==> (#[trigger] a[i])@ == b[i]@,
{
}

/// A one-letter name is valid, and its row struct is named by that letter in
/// upper case.
pub proof fn lemma_single_letter(c: char)
    requires
        is_lower_letter(c),
    ensures
        valid_name(seq![c]),
        struct_name(seq![c]) == seq![ascii_upper(c)],
        ascii_upper(c) as u32 == c as u32 - 32,
{
    assert(seq![c].subrange(1, 1) =~= Seq::<char>::empty());
    assert(struct_name(seq![c]) =~= seq![ascii_upper(c)]);
}

} // verus!
