use vstd::prelude::*;
use crate::config::Config;
use crate::render::{only_if, text_when};

verus! {

pub const APP_STATE_HEAD: &'static str =
    "#[derive(Clone)]\npub struct AppState {\n    pub db: PgPool,\n";

pub const KEY_FIELD: &'static str = "    pub key: Key,\n";

pub const KEY_IMPL: &'static str =
    "\nimpl FromRef<AppState> for Key {\n    fn from_ref(state: &AppState) -> Self {\n        state.key.clone()\n    }\n}\n";

pub const WITH_STATE: &'static str = "\n    .with_state(state);";

pub const NO_STATE: &'static str = ";";

pub const KEY_INIT: &'static str = ", key: Key::generate()";

pub const DB_PARAM: &'static str = "    #[shuttle_shared_db::Postgres] db: PgPool,\n";

/// The service keeps shared state: a database pool, and a cookie key with
/// authentication.
pub open spec fn uses_state(cfg: Config) -> bool {
    cfg.auth || cfg.crud
}

pub open spec fn app_state_text(auth: bool) -> Seq<char> {
    APP_STATE_HEAD@ + only_if(auth, KEY_FIELD@) + "}\n"@ + only_if(auth, KEY_IMPL@)
}

pub open spec fn state_init_text(auth: bool) -> Seq<char> {
    "let state = AppState { db"@ + only_if(auth, KEY_INIT@) + " };\n"@
}

/// The state pieces of the entry point: the state type, the call that ends
/// the router chain, the construction of the state and the extra parameter of
/// the entry function.
pub struct StateSnippets {
    pub app_state: Option<String>,
    pub with_state: String,
    pub state_declare: Option<String>,
    pub db_param: Option<String>,
}

impl StateSnippets {
    /// The pieces for configuration `cfg`.
    pub open spec fn for_config(&self, cfg: Config) -> bool {
        if uses_state(cfg) {
            &&& self.app_state matches Some(a) && a@ == app_state_text(cfg.auth)
            &&& self.with_state@ == WITH_STATE@
            &&& self.state_declare matches Some(d) && d@ == state_init_text(cfg.auth)
            &&& self.db_param matches Some(p) && p@ == DB_PARAM@
        } else {
            &&& self.app_state is None
            &&& self.with_state@ == NO_STATE@
            &&& self.state_declare is None
            &&& self.db_param is None
        }
    }
}

/// The state pieces for `cfg`. A state type is declared exactly when the
/// router is bound to state and the state is built.
pub fn state_snippets(cfg: Config) -> (r: StateSnippets)
    ensures
        r.for_config(cfg),
        r.app_state is Some <==> r.with_state@ == WITH_STATE@,
        r.app_state is Some <==> r.state_declare is Some,
{
    proof {
        reveal_strlit("\n    .with_state(state);");
        reveal_strlit(";");
        assert(WITH_STATE@.len() != NO_STATE@.len());
    }
    if cfg.auth || cfg.crud {
        let mut a = String::from_str(APP_STATE_HEAD);
        a.append(text_when(cfg.auth, KEY_FIELD).as_str());
        a.append("}\n");
        a.append(text_when(cfg.auth, KEY_IMPL).as_str());
        let mut d = String::from_str("let state = AppState { db");
        d.append(text_when(cfg.auth, KEY_INIT).as_str());
        d.append(" };\n");
        StateSnippets {
            app_state: Some(a),
            with_state: String::from_str(WITH_STATE),
            state_declare: Some(d),
            db_param: Some(String::from_str(DB_PARAM)),
        }
    } else {
        StateSnippets {
            app_state: None,
            with_state: String::from_str(NO_STATE),
            state_declare: None,
            db_param: None,
        }
    }
}

} // verus!
