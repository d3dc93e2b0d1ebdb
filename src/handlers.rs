use vstd::prelude::*;
use crate::config::Route;
use crate::naming::{struct_name, upper_first, valid_name};
use crate::queries::{opt_view, operations, OpSpec, QueryGen};
use crate::render::{generated_source, parses, pretty_of, render, text_when, only_if, SynthesisError};

verus! {

pub const ENDPOINT: &'static str = "Result<impl IntoResponse, impl IntoResponse>";

pub const HANDLER_USES: &'static str =
    "use crate::AppState;\nuse axum::{response::IntoResponse, http::StatusCode, extract::{Path, State}, Json};\nuse chrono::{DateTime, Utc};\nuse serde::Serialize;\n\n#[derive(Serialize, sqlx::FromRow)]\npub struct ";

pub const ROW_FIELDS: &'static str =
    " {\n    id: i32,\n    created_at: DateTime<Utc>,\n    last_updated: DateTime<Utc>,\n}\n";

pub const STATE_PARAM: &'static str = "(\n    State(state): State<AppState>,\n";

pub const IDENTITY_PARAM: &'static str = "    Extension(_userinfo): Extension<UserInfo>,\n";

pub const IDENTITY_USES: &'static str =
    "use axum::Extension;\nuse crate::middleware::auth::UserInfo;\n";

/// The return type of every generated handler.
pub fn axum_endpoint() -> (r: String)
    ensures
        r@ == ENDPOINT@,
{
    String::from_str(ENDPOINT)
}

/// The path extractor parameter, if the operation takes one.
pub open spec fn path_param(p: Option<Seq<char>>) -> Seq<char> {
    match p {
        Some(x) => "    "@ + x + ",\n"@,
        None => Seq::empty(),
    }
}

/// The bind call, if the operation binds the id.
pub open spec fn bind_call(b: Option<Seq<char>>) -> Seq<char> {
    match b {
        Some(x) => x,
        None => Seq::empty(),
    }
}

/// One handler: state (and identity when protected) and path parameters, the
/// query, a match on its outcome, and the response.
pub open spec fn handler_fn(op: OpSpec, auth: bool) -> Seq<char> {
    "\npub async fn "@ + op.fn_name + STATE_PARAM@ + only_if(auth, IDENTITY_PARAM@) + path_param(
        op.path,
    ) + ") -> "@ + ENDPOINT@ + " {\n    "@ + op.declaration + op.querytype + "(\""@ + op.query
        + "\")"@ + bind_call(op.bind) + op.fetch_mode + "\n        .await {\n        "@
        + op.error_handling + "\n    };\n    "@ + op.response + "\n}\n"@
}

/// The handlers of `ops`, one after another.
pub open spec fn handlers_text(ops: Seq<OpSpec>, auth: bool) -> Seq<char>
    decreases ops.len(),
{
    if ops.len() == 0 {
        Seq::empty()
    } else {
        handlers_text(ops.drop_last(), auth) + handler_fn(ops.last(), auth)
    }
}

/// The imports of the row struct and the row struct itself.
pub open spec fn handler_header(n: Seq<char>) -> Seq<char> {
    HANDLER_USES@ + struct_name(n) + ROW_FIELDS@
}

/// The handler file of resource `n`: its row struct and its five handlers.
pub open spec fn handler_file(n: Seq<char>, auth: bool) -> Seq<char> {
    handler_header(n) + handlers_text(operations(n), auth)
}

/// The imports a handler file needs besides its own: the identity extractor,
/// for a protected resource.
pub open spec fn handler_imports(auth: bool) -> Seq<char> {
    only_if(auth, IDENTITY_USES@)
}

fn path_param_text(p: &Option<String>) -> (r: String)
    ensures
        r@ == path_param(opt_view(*p)),
{
    match p {
        Some(x) => {
            let mut r = String::from_str("    ");
            r.append(x.as_str());
            r.append(",\n");
            r
        },
        None => String::new(),
    }
}

fn bind_call_text(b: &Option<String>) -> (r: String)
    ensures
        r@ == bind_call(opt_view(*b)),
{
    match b {
        Some(x) => x.clone(),
        None => String::new(),
    }
}

/// Appends the handler of operation `q` to `s`.
fn push_handler(s: &mut String, q: &QueryGen, auth: bool)
    ensures
        final(s)@ == old(s)@ + handler_fn(q@, auth),
{
    let ghost start = s@;
    let mut h = String::from_str("\npub async fn ");
    h.append(q.query_fn_name.as_str());
    h.append(STATE_PARAM);
    h.append(text_when(auth, IDENTITY_PARAM).as_str());
    h.append(path_param_text(&q.path).as_str());
    h.append(") -> ");
    h.append(ENDPOINT);
    h.append(" {\n    ");
    h.append(q.declaration.as_str());
    h.append(q.querytype.as_str());
    h.append("(\"");
    h.append(q.query.as_str());
    h.append("\")");
    h.append(bind_call_text(&q.bind).as_str());
    h.append(q.fetch_mode.as_str());
    h.append("\n        .await {\n        ");
    h.append(q.error_handling.as_str());
    h.append("\n    };\n    ");
    h.append(q.response.as_str());
    h.append("\n}\n");
    s.append(h.as_str());
}

/// The source text of the handler file of resource `n`, with the identity
/// parameter in every handler when `auth` holds.
pub fn handler_source(n: &str, auth: bool) -> (r: String)
    requires
        valid_name(n@),
    ensures
        r@ == handler_file(n@, auth),
{
    let ops = QueryGen::create_query_data(n);
    let mut s = String::from_str(HANDLER_USES);
    s.append(upper_first(n).as_str());
    s.append(ROW_FIELDS);
    let ghost all = operations(n@);
    assert(handlers_text(all.take(0), auth) =~= Seq::<char>::empty());
    assert(s@ =~= handler_header(n@) + handlers_text(all.take(0), auth));
    let mut i: usize = 0;
    while i < ops.len()
        invariant
            ops@.len() == 5,
            i <= 5,
            all == operations(n@),
            forall|k: int| 0 <= k < 5 ==> (#[trigger] ops@[k])@ == all[k],
            s@ == handler_header(n@) + handlers_text(all.take(i as int), auth),
        decreases 5 - i,
    {
        let ghost before = s@;
        push_handler(&mut s, &ops[i], auth);
        assert(all.take(i + 1).drop_last() =~= all.take(i as int));
        assert(all.take(i + 1).last() == all[i as int]);
        assert(s@ =~= handler_header(n@) + handlers_text(all.take(i + 1), auth));
        i = i + 1;
    }
    assert(all.take(5) =~= all);
    s
}

/// The laid-out handler file of `route` and the imports it needs besides its
/// own.
pub fn axum_crud_fns(route: Route, requires_auth: bool) -> (r: Result<(String, String), SynthesisError>)
    requires
        valid_name(route.name@),
    ensures
        r is Ok <==> parses(handler_file(route.name@, requires_auth)),
        r matches Ok((code, uses)) ==> code@ == pretty_of(handler_file(route.name@, requires_auth))
            && uses@ == handler_imports(requires_auth),
{
    let src = handler_source(route.name.as_str(), requires_auth);
    assert(generated_source(src@));
    let code = render(src.as_str())?;
    Ok((code, text_when(requires_auth, IDENTITY_USES)))
}

} // verus!
