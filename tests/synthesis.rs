use scaffold_gen::config::{configure, is_valid_name, Config, ConfigError, Route};
use scaffold_gen::deps::{required_dependencies, Dependency};
use scaffold_gen::entry::{entry_capabilities, main_function, main_parts, Capability};
use scaffold_gen::generate::{generate, module_list};
use scaffold_gen::handlers::{axum_crud_fns, axum_endpoint, handler_source};
use scaffold_gen::migration::{migration_file_names, migration_scripts};
use scaffold_gen::naming::derive_names;
use scaffold_gen::queries::QueryGen;
use scaffold_gen::render::SynthesisError;
use scaffold_gen::routes::axum_crud_routes;
use scaffold_gen::snippets::state_snippets;
use scaffold_gen::auth::{auth_middleware, auth_router, auth_routes};

fn route(name: &str, auth_required: bool) -> Route {
    Route { name: name.to_string(), auth_required }
}

fn config(names: &[&str], auth: bool, secrets: bool, protect: bool) -> (Config, Vec<Route>) {
    let names: Vec<String> = names.iter().map(|n| n.to_string()).collect();
    configure(names, auth, secrets, protect).unwrap()
}

#[test]
fn derive_names_widgets() {
    let n = derive_names("widgets");
    assert_eq!(n.struct_name, "Widgets");
    assert_eq!(n.router_name, "widgets_router");
    assert_eq!(n.get_all_fn, "get_all_widgets");
    assert_eq!(n.get_one_fn, "get_widgets_by_id");
    assert_eq!(n.create_fn, "create_widgets");
    assert_eq!(n.update_fn, "update_widgets_by_id");
    assert_eq!(n.delete_fn, "delete_widgets_by_id");
    assert_eq!(n.path_literal, "/widgets");
}

#[test]
fn derive_names_single_letter() {
    let n = derive_names("a");
    assert_eq!(n.struct_name, "A");
    assert_eq!(n.get_all_fn, "get_all_a");
    assert_eq!(n.get_one_fn, "get_a_by_id");
    assert_eq!(n.create_fn, "create_a");
    assert_eq!(n.update_fn, "update_a_by_id");
    assert_eq!(n.delete_fn, "delete_a_by_id");
    let code = handler_source("a", false);
    assert!(code.contains("pub struct A {"));
    assert!(axum_crud_fns(route("a", false), false).is_ok());
}

#[test]
fn derive_names_distinct() {
    let n = derive_names("all_x");
    let v = [&n.get_all_fn, &n.get_one_fn, &n.create_fn, &n.update_fn, &n.delete_fn];
    for i in 0..5 {
        for j in 0..5 {
            if i != j {
                assert_ne!(v[i], v[j]);
            }
        }
    }
}

#[test]
fn valid_names() {
    assert!(is_valid_name("widgets"));
    assert!(is_valid_name("a"));
    assert!(is_valid_name("blog_post2"));
    assert!(!is_valid_name(""));
    assert!(!is_valid_name("Widgets"));
    assert!(!is_valid_name("2fast"));
    assert!(is_valid_name("_x"));
    assert!(!is_valid_name("9"));
    assert!(!is_valid_name("bad-name"));
    assert!(!is_valid_name("wïdget"));
}

#[test]
fn configure_builds_routes() {
    let (cfg, routes) = config(&["widgets", "gadgets"], true, false, true);
    assert!(cfg.crud);
    assert!(cfg.auth);
    assert!(!cfg.secrets);
    assert_eq!(cfg.routes, Some(vec!["widgets".to_string(), "gadgets".to_string()]));
    assert_eq!(routes.len(), 2);
    assert_eq!(routes[1].name, "gadgets");
    assert!(routes[0].auth_required && routes[1].auth_required);
    let (cfg, routes) = config(&[], false, true, false);
    assert!(!cfg.crud);
    assert_eq!(cfg.routes, None);
    assert!(routes.is_empty());
}

#[test]
fn configure_rejects_bad_input() {
    let r = configure(vec!["ok".to_string(), "Bad".to_string()], true, false, false);
    assert_eq!(r.err(), Some(ConfigError::InvalidName));
    for kw in ["fn", "type", "mod", "self", "_"] {
        let r = configure(vec![kw.to_string()], false, false, false);
        assert_eq!(r.err(), Some(ConfigError::InvalidName));
    }
    assert!(configure(vec!["_x".to_string()], false, false, false).is_ok());
    let r = configure(vec!["".to_string()], false, false, false);
    assert_eq!(r.err(), Some(ConfigError::InvalidName));
    let r = configure(vec!["a".to_string(), "b".to_string(), "a".to_string()], true, false, false);
    assert_eq!(r.err(), Some(ConfigError::DuplicateName));
    let r = configure(vec!["a".to_string(), "a".to_string(), "B".to_string()], true, false, false);
    assert_eq!(r.err(), Some(ConfigError::InvalidName));
    let r = configure(vec!["a".to_string(), "a".to_string()], false, false, true);
    assert_eq!(r.err(), Some(ConfigError::DuplicateName));
    for reserved in ["users", "usersessions", "auth"] {
        let r = configure(vec!["widgets".to_string(), reserved.to_string()], true, false, false);
        assert_eq!(r.err(), Some(ConfigError::ReservedName));
        assert!(configure(vec![reserved.to_string()], false, false, false).is_ok());
    }
    let r = configure(vec!["users".to_string(), "users".to_string()], true, false, false);
    assert_eq!(r.err(), Some(ConfigError::DuplicateName));
    let r = configure(vec!["users".to_string()], false, false, true);
    assert_eq!(r.err(), Some(ConfigError::ProtectWithoutAuth));
    let r = configure(vec!["widgets".to_string()], false, false, true);
    assert_eq!(r.err(), Some(ConfigError::ProtectWithoutAuth));
}

#[test]
fn query_data_shape() {
    let q = QueryGen::create_query_data("widgets");
    assert_eq!(q.len(), 5);
    assert_eq!(q[0].query_fn_name, "get_all_widgets");
    assert_eq!(q[0].query, "SELECT * FROM widgets");
    assert_eq!(q[0].querytype, "sqlx::query_as::<_, Widgets>");
    assert_eq!(q[0].path, None);
    assert_eq!(q[1].query, "SELECT * FROM widgets WHERE id = $1");
    assert_eq!(q[1].path.as_deref(), Some("Path(id): Path<i32>"));
    assert_eq!(q[1].bind.as_deref(), Some(".bind(id)"));
    assert_eq!(q[1].fetch_mode, ".fetch_one(&state.db)");
    assert_eq!(q[2].query, "INSERT INTO widgets () VALUES ()");
    assert_eq!(q[2].response, "Ok(StatusCode::CREATED)");
    assert_eq!(q[3].query, "UPDATE widgets set $1 = $2 WHERE id = $3");
    assert_eq!(q[4].query_fn_name, "delete_widgets_by_id");
    assert_eq!(q[4].query, "DELETE FROM widgets WHERE id = $1");
    assert_eq!(q[4].fetch_mode, ".execute(&state.db)");
}

#[test]
fn query_data_twice_is_equal() {
    let a = QueryGen::create_query_data("widgets");
    let b = QueryGen::create_query_data("widgets");
    for (x, y) in a.iter().zip(b.iter()) {
        assert_eq!(x.query_fn_name, y.query_fn_name);
        assert_eq!(x.query, y.query);
        assert_eq!(x.path, y.path);
        assert_eq!(x.bind, y.bind);
        assert_eq!(x.fetch_mode, y.fetch_mode);
        assert_eq!(x.querytype, y.querytype);
        assert_eq!(x.response, y.response);
        assert_eq!(x.declaration, y.declaration);
        assert_eq!(x.error_handling, y.error_handling);
    }
}

#[test]
fn handler_file_has_five_handlers() {
    let (code, uses) = axum_crud_fns(route("widgets", false), false).unwrap();
    for f in ["get_all_widgets", "get_widgets_by_id", "create_widgets", "update_widgets_by_id", "delete_widgets_by_id"] {
        assert!(code.contains(&format!("pub async fn {f}(")), "{f} missing in {code}");
    }
    assert_eq!(code.matches("pub async fn").count(), 5);
    assert!(code.contains("pub struct Widgets"));
    assert!(!code.contains("UserInfo"));
    assert_eq!(uses, "");
}

#[test]
fn protected_handler_file_takes_identity() {
    let (code, uses) = axum_crud_fns(route("widgets", true), true).unwrap();
    assert_eq!(code.matches("Extension<UserInfo>").count(), 5);
    assert_eq!(uses, "use axum::Extension;\nuse crate::middleware::auth::UserInfo;\n");
}

#[test]
fn rendering_changes_layout() {
    let src = handler_source("widgets", false);
    let (laid_out, _) = axum_crud_fns(route("widgets", false), false).unwrap();
    assert_ne!(laid_out, src);
    assert!(laid_out.contains("pub async fn get_all_widgets("));
}

#[test]
fn rendering_rejects_broken_source() {
    assert_eq!(module_list(&vec!["fn".to_string()]).err(), Some(SynthesisError::Unparsable));
}

#[test]
fn endpoint_type() {
    assert_eq!(axum_endpoint(), "Result<impl IntoResponse, impl IntoResponse>");
}

#[test]
fn route_table_counts_match() {
    let routes = vec![route("widgets", false), route("gadgets", true), route("b", false)];
    let t = axum_crud_routes(routes);
    assert_eq!(t.routers.len(), 3);
    assert_eq!(t.nests.len(), 3);
    assert_eq!(t.imports.len(), 3);
    assert!(t.routers[0].starts_with("let widgets_router = Router::new()"));
    assert!(t.routers[0].contains("get(get_all_widgets).post(create_widgets)"));
    assert!(t.routers[0].contains("get(get_widgets_by_id).patch(update_widgets_by_id).delete(delete_widgets_by_id)"));
    assert!(!t.routers[0].contains("check_authed_cookies"));
    assert!(t.routers[1].contains(".layer(from_fn_with_state(state.clone(), check_authed_cookies))"));
    assert_eq!(t.nests[1], "\n    .nest(\"/gadgets\", gadgets_router)");
    assert_eq!(
        t.imports[2],
        "use crate::routes::b::{get_all_b, get_b_by_id, create_b, update_b_by_id, delete_b_by_id};\n"
    );
    let empty = axum_crud_routes(vec![]);
    assert!(empty.routers.is_empty() && empty.nests.is_empty() && empty.imports.is_empty());
}

#[test]
fn state_snippets_variants() {
    let none = state_snippets(Config { crud: false, auth: false, routes: None, secrets: false });
    assert!(none.app_state.is_none() && none.state_declare.is_none() && none.db_param.is_none());
    assert_eq!(none.with_state, ";");
    let crud = state_snippets(Config { crud: true, auth: false, routes: None, secrets: false });
    assert!(crud.app_state.as_ref().unwrap().contains("pub db: PgPool"));
    assert!(!crud.app_state.as_ref().unwrap().contains("Key"));
    assert_eq!(crud.state_declare.as_deref(), Some("let state = AppState { db };\n"));
    assert_eq!(crud.with_state, "\n    .with_state(state);");
    let auth = state_snippets(Config { crud: false, auth: true, routes: None, secrets: false });
    assert!(auth.app_state.as_ref().unwrap().contains("impl FromRef<AppState> for Key"));
    assert_eq!(auth.state_declare.as_deref(), Some("let state = AppState { db, key: Key::generate() };\n"));
    assert!(auth.db_param.is_some());
}

#[test]
fn migrations_pair_up() {
    let routes = vec![route("widgets", false), route("gadgets", false)];
    let m = migration_scripts(&routes, true);
    let w = m.up.find("CREATE TABLE IF NOT EXISTS widgets").unwrap();
    let g = m.up.find("CREATE TABLE IF NOT EXISTS gadgets").unwrap();
    let u = m.up.find("CREATE TABLE IF NOT EXISTS users").unwrap();
    let s = m.up.find("CREATE TABLE IF NOT EXISTS usersessions").unwrap();
    assert!(w < g && g < u && u < s);
    assert_eq!(
        m.down,
        "DROP TABLE widgets;\nDROP TABLE gadgets;\nDROP TABLE usersessions;\nDROP TABLE users;\n"
    );
    let plain = migration_scripts(&routes, false);
    assert!(!plain.up.contains("users"));
    assert_eq!(plain.down, "DROP TABLE widgets;\nDROP TABLE gadgets;\n");
    let (up, down) = migration_file_names("20240101120000");
    assert_eq!(up, "20240101120000_schema.up.sql");
    assert_eq!(down, "20240101120000_schema.down.sql");
}

#[test]
fn migration_round_trip_leaves_nothing() {
    let routes = vec![route("widgets", false), route("b", false)];
    for auth in [false, true] {
        let m = migration_scripts(&routes, auth);
        let created: Vec<&str> = m
            .up
            .split("CREATE TABLE IF NOT EXISTS ")
            .skip(1)
            .map(|s| s.split(' ').next().unwrap())
            .collect();
        let mut dropped: Vec<&str> = m
            .down
            .lines()
            .map(|l| l.trim_start_matches("DROP TABLE ").trim_end_matches(';'))
            .collect();
        let mut remaining = created.clone();
        remaining.retain(|t| !dropped.contains(t));
        assert!(remaining.is_empty());
        dropped.sort();
        let mut c = created.clone();
        c.sort();
        assert_eq!(c, dropped);
    }
}

#[test]
fn dependencies_follow_config() {
    let base = required_dependencies(&Config { crud: false, auth: false, routes: None, secrets: false });
    assert_eq!(base, vec![Dependency::Axum, Dependency::ShuttleRuntime, Dependency::ShuttleAxum, Dependency::Tokio]);
    let crud = required_dependencies(&Config { crud: true, auth: false, routes: None, secrets: true });
    assert!(crud.contains(&Dependency::Sqlx) && crud.contains(&Dependency::ShuttleSecrets));
    for d in [Dependency::AxumExtra, Dependency::Bcrypt, Dependency::Time, Dependency::Rand] {
        assert!(!crud.contains(&d));
    }
    let auth = required_dependencies(&Config { crud: false, auth: true, routes: None, secrets: false });
    assert!(auth.contains(&Dependency::Bcrypt) && auth.contains(&Dependency::AxumExtra));
    assert_eq!(Dependency::Sqlx.name(), "sqlx");
    assert_eq!(Dependency::Sqlx.version(), "0.7.1");
    assert_eq!(Dependency::Sqlx.features(), vec!["runtime-tokio-native-tls", "postgres", "chrono"]);
    assert_eq!(Dependency::ShuttleAxum.version(), "0.24.0");
    assert!(Dependency::Tokio.features().is_empty());
}

#[test]
fn scenario_widgets_without_auth() {
    let (cfg, routes) = config(&["widgets"], false, false, false);
    let a = generate(cfg, routes).unwrap();
    assert_eq!(a.handlers.len(), 1);
    assert_eq!(a.handlers[0].name, "widgets");
    let code = &a.handlers[0].code;
    assert_eq!(code.matches("pub async fn").count(), 5);
    for f in ["get_all_widgets", "get_widgets_by_id", "create_widgets", "update_widgets_by_id", "delete_widgets_by_id"] {
        assert!(code.contains(&format!("pub async fn {f}(")));
    }
    let m = a.migration.unwrap();
    assert!(m.up.contains("CREATE TABLE IF NOT EXISTS widgets"));
    assert!(!m.up.contains("users"));
    assert_eq!(m.down, "DROP TABLE widgets;\n");
    assert!(a.auth_routes.is_none() && a.auth_middleware.is_none());
    assert!(!a.main_uses.contains("auth"));
    assert!(!a.main_code.contains("auth_router"));
    assert!(!a.main_code.contains("check_authed_cookies"));
    assert!(!a.dependencies.contains(&Dependency::Bcrypt));
}

#[test]
fn scenario_widgets_with_protected_auth() {
    let (cfg, routes) = config(&["widgets"], true, false, true);
    let a = generate(cfg, routes).unwrap();
    assert!(a.main_code.contains("check_authed_cookies"));
    assert!(a.main_code.contains("let widgets_router"));
    assert!(a.main_uses.contains("use crate::middleware::auth::check_authed_cookies;\n"));
    assert!(a.main_uses.contains("use axum::middleware::from_fn_with_state;\n"));
    let m = a.migration.unwrap();
    let w = m.up.find("CREATE TABLE IF NOT EXISTS widgets").unwrap();
    let u = m.up.find("CREATE TABLE IF NOT EXISTS users ").unwrap();
    let s = m.up.find("CREATE TABLE IF NOT EXISTS usersessions").unwrap();
    assert!(w < u && u < s);
    assert!(a.auth_routes.is_some() && a.auth_middleware.is_some());
    assert!(a.handlers[0].uses.contains("UserInfo"));
}

#[test]
fn scenario_auth_without_resources() {
    let (cfg, routes) = config(&[], true, false, false);
    let a = generate(cfg, routes).unwrap();
    assert!(a.handlers.is_empty());
    assert_eq!(a.main_code.matches("Router::new()").count(), 2);
    assert!(!a.main_code.contains(".nest(\"/w"));
    assert!(!a.main_uses.contains("use crate::routes::w"));
    let m = a.migration.unwrap();
    assert!(m.up.starts_with("CREATE TABLE IF NOT EXISTS users"));
    assert!(m.up.contains("CREATE TABLE IF NOT EXISTS usersessions"));
    assert_eq!(m.down, "DROP TABLE usersessions;\nDROP TABLE users;\n");
    let routes_file = a.auth_routes.unwrap();
    assert!(routes_file.contains("pub async fn login("));
    assert!(routes_file.contains("pub async fn register("));
    assert!(a.auth_middleware.unwrap().contains("pub async fn check_authed_cookies"));
    assert!(a.main_code.contains("let auth_router"));
    assert!(a.main_code.contains(".nest(\"/auth\", auth_router)"));
}

#[test]
fn scenario_nothing_selected() {
    let (cfg, routes) = config(&[], false, true, false);
    let a = generate(cfg, routes).unwrap();
    assert!(a.migration.is_none());
    assert!(a.main_code.contains("SecretStore"));
    assert_eq!(a.secrets_file.as_deref(), Some("KEY = \"VALUE\""));
    assert_eq!(a.main_uses, "use shuttle_secrets::SecretStore;\n");
}

#[test]
fn entry_point_capabilities() {
    let (cfg, routes) = config(&["widgets"], true, true, true);
    let caps = entry_capabilities(&cfg, &routes);
    assert_eq!(
        caps,
        vec![
            Capability::GuardLayer,
            Capability::Guard,
            Capability::DbPool,
            Capability::PostRouting,
            Capability::AuthRoutes,
            Capability::CookieKey,
            Capability::FromRef,
            Capability::MiddlewareModule,
            Capability::SecretStore,
        ]
    );
    let (src, uses) = main_parts(cfg.clone(), routes.clone());
    assert!(src.contains(".nest(\"/widgets\", widgets_router)"));
    assert!(uses.starts_with("use crate::routes::widgets::{"));
    let (code, _) = main_function(cfg, routes).unwrap();
    assert!(code.contains("#[shuttle_runtime::main]"));
    assert!(code.contains("hello_world"));
}

#[test]
fn auth_fragments() {
    assert!(auth_router().contains(".route(\"/login\", post(login))"));
    let r = auth_routes().unwrap();
    assert!(r.contains("http_only(true)") && r.contains("secure(true)"));
    assert!(r.contains("rand::random"));
    assert!(!r.contains("hello world"));
    let m = auth_middleware().unwrap();
    assert!(m.contains("expires_at > NOW()"));
    assert!(m.contains("StatusCode::FORBIDDEN"));
}

#[test]
fn module_list_declares_each() {
    let m = module_list(&vec!["auth".to_string(), "widgets".to_string()]).unwrap();
    assert_eq!(m, "pub mod auth;\npub mod widgets;\n");
}
