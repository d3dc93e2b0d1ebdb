use vstd::prelude::*;
use crate::render::text;
use crate::naming::{
    affix, create_name, delete_name, get_all_name, get_one_name, prefixed, struct_name,
    update_name, upper_first, valid_name,
};

verus! {

pub const FETCH_ALL: &'static str = ".fetch_all(&state.db)";

pub const FETCH_ONE: &'static str = ".fetch_one(&state.db)";

pub const EXECUTE: &'static str = ".execute(&state.db)";

pub const PLAIN_QUERY: &'static str = "sqlx::query";

pub const ID_PATH: &'static str = "Path(id): Path<i32>";

pub const ID_BIND: &'static str = ".bind(id)";

pub const RESPOND_ROWS: &'static str = "Ok((StatusCode::OK, Json(res)))";

pub const RESPOND_OK: &'static str = "Ok(StatusCode::OK)";

pub const RESPOND_CREATED: &'static str = "Ok(StatusCode::CREATED)";

pub const BIND_RESULT: &'static str = "let res = match ";

pub const CHECK_RESULT: &'static str = "if let Err(e) = ";

pub const ON_ROWS_ERROR: &'static str =
    "Ok(res) => res,\n        Err(e) => return Err((StatusCode::INTERNAL_SERVER_ERROR, e.to_string())),";

pub const ON_EXEC_ERROR: &'static str =
    "return Err((StatusCode::INTERNAL_SERVER_ERROR, e.to_string()));";

/// What one generated handler does, as text fragments: its name, its SQL, the
/// optional path extractor and bind call, the fetch call, the query builder,
/// the success response, the statement that opens the query, and what the
/// failure arm holds.
pub struct QueryGen {
    pub query_fn_name: String,
    pub query: String,
    pub path: Option<String>,
    pub bind: Option<String>,
    pub fetch_mode: String,
    pub querytype: String,
    pub response: String,
    pub declaration: String,
    pub error_handling: String,
}

/// The model of an operation descriptor.
pub struct OpSpec {
    pub fn_name: Seq<char>,
    pub query: Seq<char>,
    pub path: Option<Seq<char>>,
    pub bind: Option<Seq<char>>,
    pub fetch_mode: Seq<char>,
    pub querytype: Seq<char>,
    pub response: Seq<char>,
    pub declaration: Seq<char>,
    pub error_handling: Seq<char>,
}

pub open spec fn opt_view(o: Option<String>) -> Option<Seq<char>> {
    match o {
        Some(s) => Some(s@),
        None => None,
    }
}

impl View for QueryGen {
    type V = OpSpec;

    open spec fn view(&self) -> OpSpec {
        OpSpec {
            fn_name: self.query_fn_name@,
            query: self.query@,
            path: opt_view(self.path),
            bind: opt_view(self.bind),
            fetch_mode: self.fetch_mode@,
            querytype: self.querytype@,
            response: self.response@,
            declaration: self.declaration@,
            error_handling: self.error_handling@,
        }
    }
}

pub open spec fn row_query(n: Seq<char>) -> Seq<char> {
    "sqlx::query_as::<_, "@ + struct_name(n) + ">"@
}

/// List: every row of the table.
pub open spec fn list_op(n: Seq<char>) -> OpSpec {
    OpSpec {
        fn_name: get_all_name(n),
        query: "SELECT * FROM "@ + n,
        path: None,
        bind: None,
        fetch_mode: FETCH_ALL@,
        querytype: row_query(n),
        response: RESPOND_ROWS@,
        declaration: BIND_RESULT@,
        error_handling: ON_ROWS_ERROR@,
    }
}

/// Get by id: the row with the id of the path.
pub open spec fn get_op(n: Seq<char>) -> OpSpec {
    OpSpec {
        fn_name: get_one_name(n),
        query: "SELECT * FROM "@ + n + " WHERE id = $1"@,
        path: Some(ID_PATH@),
        bind: Some(ID_BIND@),
        fetch_mode: FETCH_ONE@,
        querytype: row_query(n),
        response: RESPOND_ROWS@,
        declaration: BIND_RESULT@,
        error_handling: ON_ROWS_ERROR@,
    }
}

/// Create: a row of defaults (the table has no columns of its own to fill).
pub open spec fn create_op(n: Seq<char>) -> OpSpec {
    OpSpec {
        fn_name: create_name(n),
        query: "INSERT INTO "@ + n + " () VALUES ()"@,
        path: None,
        bind: None,
        fetch_mode: EXECUTE@,
        querytype: PLAIN_QUERY@,
        response: RESPOND_CREATED@,
        declaration: CHECK_RESULT@,
        error_handling: ON_EXEC_ERROR@,
    }
}

/// Update by id: a template statement with a column placeholder, to be edited
/// in the generated project.
pub open spec fn update_op(n: Seq<char>) -> OpSpec {
    OpSpec {
        fn_name: update_name(n),
        query: "UPDATE "@ + n + " set $1 = $2 WHERE id = $3"@,
        path: Some(ID_PATH@),
        bind: Some(ID_BIND@),
        fetch_mode: FETCH_ALL@,
        querytype: PLAIN_QUERY@,
        response: RESPOND_OK@,
        declaration: CHECK_RESULT@,
        error_handling: ON_EXEC_ERROR@,
    }
}

/// Delete by id: removes the row with the id of the path.
pub open spec fn delete_op(n: Seq<char>) -> OpSpec {
    OpSpec {
        fn_name: delete_name(n),
        query: "DELETE FROM "@ + n + " WHERE id = $1"@,
        path: Some(ID_PATH@),
        bind: Some(ID_BIND@),
        fetch_mode: EXECUTE@,
        querytype: PLAIN_QUERY@,
        response: RESPOND_OK@,
        declaration: CHECK_RESULT@,
        error_handling: ON_EXEC_ERROR@,
    }
}

/// The five operations of resource `n`, in their fixed order.
pub open spec fn operations(n: Seq<char>) -> Seq<OpSpec> {
    seq![list_op(n), get_op(n), create_op(n), update_op(n), delete_op(n)]
}

fn row_query_of(n: &str) -> (r: String)
    requires
        valid_name(n@),
    ensures
        r@ == row_query(n@),
{
    let s = upper_first(n);
    affix("sqlx::query_as::<_, ", s.as_str(), ">")
}

impl QueryGen {
    fn get_all(n: &str) -> (r: Self)
        requires
            valid_name(n@),
        ensures
            r@ == list_op(n@),
    {
        QueryGen {
            query_fn_name: prefixed("get_all_", n),
            query: prefixed("SELECT * FROM ", n),
            path: None,
            bind: None,
            fetch_mode: text(FETCH_ALL),
            querytype: row_query_of(n),
            response: text(RESPOND_ROWS),
            declaration: text(BIND_RESULT),
            error_handling: text(ON_ROWS_ERROR),
        }
    }

    fn get_one(n: &str) -> (r: Self)
        requires
            valid_name(n@),
        ensures
            r@ == get_op(n@),
    {
        QueryGen {
            query_fn_name: affix("get_", n, "_by_id"),
            query: affix("SELECT * FROM ", n, " WHERE id = $1"),
            path: Some(text(ID_PATH)),
            bind: Some(text(ID_BIND)),
            fetch_mode: text(FETCH_ONE),
            querytype: row_query_of(n),
            response: text(RESPOND_ROWS),
            declaration: text(BIND_RESULT),
            error_handling: text(ON_ROWS_ERROR),
        }
    }

    fn create(n: &str) -> (r: Self)
        ensures
            r@ == create_op(n@),
    {
        QueryGen {
            query_fn_name: prefixed("create_", n),
            query: affix("INSERT INTO ", n, " () VALUES ()"),
            path: None,
            bind: None,
            fetch_mode: text(EXECUTE),
            querytype: text(PLAIN_QUERY),
            response: text(RESPOND_CREATED),
            declaration: text(CHECK_RESULT),
            error_handling: text(ON_EXEC_ERROR),
        }
    }

    fn update(n: &str) -> (r: Self)
        ensures
            r@ == update_op(n@),
    {
        QueryGen {
            query_fn_name: affix("update_", n, "_by_id"),
            query: affix("UPDATE ", n, " set $1 = $2 WHERE id = $3"),
            path: Some(text(ID_PATH)),
            bind: Some(text(ID_BIND)),
            fetch_mode: text(FETCH_ALL),
            querytype: text(PLAIN_QUERY),
            response: text(RESPOND_OK),
            declaration: text(CHECK_RESULT),
            error_handling: text(ON_EXEC_ERROR),
        }
    }

    fn delete(n: &str) -> (r: Self)
        ensures
            r@ == delete_op(n@),
    {
        QueryGen {
            query_fn_name: affix("delete_", n, "_by_id"),
            query: affix("DELETE FROM ", n, " WHERE id = $1"),
            path: Some(text(ID_PATH)),
            bind: Some(text(ID_BIND)),
            fetch_mode: text(EXECUTE),
            querytype: text(PLAIN_QUERY),
            response: text(RESPOND_OK),
            declaration: text(CHECK_RESULT),
            error_handling: text(ON_EXEC_ERROR),
        }
    }

    /// The five operation descriptors of resource `n`: list, get by id,
    /// create, update by id, delete by id.
    pub fn create_query_data(n: &str) -> (r: Vec<Self>)
        requires
            valid_name(n@),
        ensures
            r@.len() == 5,
            forall|i: int| 0 <= i < 5 ==> (#[trigger] r@[i])@ == operations(n@)[i],
    {
        let r = vec![
            QueryGen::get_all(n),
            QueryGen::get_one(n),
            QueryGen::create(n),
            QueryGen::update(n),
            QueryGen::delete(n),
        ];
        r
    }
}

} // verus!
