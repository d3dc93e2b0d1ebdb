use vstd::prelude::*;
use crate::config::Route;
use crate::config::reserved_name;

verus! {

pub const TABLE_COLUMNS: &'static str =
    " (\n    id SERIAL PRIMARY KEY,\n    created_at TIMESTAMP WITH TIME ZONE NOT NULL DEFAULT CURRENT_TIMESTAMP,\n    last_updated TIMESTAMP WITH TIME ZONE NOT NULL DEFAULT CURRENT_TIMESTAMP\n);\n\n";

/// The user table: unique user names, password hashes, timestamps.
pub const USERS_DDL: &'static str = "CREATE TABLE IF NOT EXISTS users (
    id SERIAL PRIMARY KEY,
    username VARCHAR(255) NOT NULL UNIQUE,
    password VARCHAR NOT NULL,
    created_at TIMESTAMP WITH TIME ZONE NOT NULL DEFAULT CURRENT_TIMESTAMP,
    last_updated TIMESTAMP WITH TIME ZONE NOT NULL DEFAULT CURRENT_TIMESTAMP
);

";

/// The session table: at most one session per user, with its expiry and a
/// foreign key to its user.
pub const SESSIONS_DDL: &'static str = "CREATE TABLE IF NOT EXISTS usersessions (
    id SERIAL PRIMARY KEY,
    user_id INT NOT NULL UNIQUE,
    session_id VARCHAR NOT NULL UNIQUE,
    expires_at TIMESTAMP WITH TIME ZONE NOT NULL,
    FOREIGN KEY (user_id) REFERENCES users(id)
);

";

pub const USERS_TABLE: &'static str = "users";

pub const SESSIONS_TABLE: &'static str = "usersessions";

/// A table of the generated schema.
pub enum Table {
    /// The table of a resource, named after it.
    Resource(Seq<char>),
    /// The user table.
    Users,
    /// The session table.
    Sessions,
}

pub open spec fn table_name(t: Table) -> Seq<char> {
    match t {
        Table::Resource(n) => n,
        Table::Users => USERS_TABLE@,
        Table::Sessions => SESSIONS_TABLE@,
    }
}

/// The statement that creates table `t`.
pub open spec fn create_stmt(t: Table) -> Seq<char> {
    match t {
        Table::Resource(n) => "CREATE TABLE IF NOT EXISTS "@ + n + TABLE_COLUMNS@,
        Table::Users => USERS_DDL@,
        Table::Sessions => SESSIONS_DDL@,
    }
}

/// The statement that drops table `t`.
pub open spec fn drop_stmt(t: Table) -> Seq<char> {
    "DROP TABLE "@ + table_name(t) + ";\n"@
}

/// The tables of the resources `rs`, in order.
pub open spec fn resource_tables(rs: Seq<Route>) -> Seq<Table> {
    rs.map_values(|r: Route| Table::Resource(r.name@))
}

/// The tables that the forward script creates, in order.
pub open spec fn created_tables(rs: Seq<Route>, auth: bool) -> Seq<Table> {
    if auth {
        resource_tables(rs) + seq![Table::Users, Table::Sessions]
    } else {
        resource_tables(rs)
    }
}

/// The tables that the reverse script drops, in order: the resources, then the
/// session table before the user table that it refers to.
pub open spec fn dropped_tables(rs: Seq<Route>, auth: bool) -> Seq<Table> {
    if auth {
        resource_tables(rs) + seq![Table::Sessions, Table::Users]
    } else {
        resource_tables(rs)
    }
}

/// One create statement per table of `ts`.
pub open spec fn creates_text(ts: Seq<Table>) -> Seq<char>
    decreases ts.len(),
{
    if ts.len() == 0 {
        Seq::empty()
    } else {
        creates_text(ts.drop_last()) + create_stmt(ts.last())
    }
}

/// One drop statement per table of `ts`.
pub open spec fn drops_text(ts: Seq<Table>) -> Seq<char>
    decreases ts.len(),
{
    if ts.len() == 0 {
        Seq::empty()
    } else {
        drops_text(ts.drop_last()) + drop_stmt(ts.last())
    }
}

/// The forward script: a create statement per created table.
pub open spec fn up_script(rs: Seq<Route>, auth: bool) -> Seq<char> {
    creates_text(created_tables(rs, auth))
}

/// The reverse script: a drop statement per dropped table.
pub open spec fn down_script(rs: Seq<Route>, auth: bool) -> Seq<char> {
    drops_text(dropped_tables(rs, auth))
}

/// With authentication, no resource takes the name of an authentication
/// table or of the authentication module.
pub open spec fn reserved_free(rs: Seq<Route>, auth: bool) -> bool {
    auth ==> forall|i: int| 0 <= i < rs.len() ==> !reserved_name(#[trigger] rs[i].name@)
}

/// The forward and the reverse script of one run.
pub struct MigrationPair {
    pub up: String,
    pub down: String,
}

/// The two migration scripts for `routes`, with the authentication tables
/// when `auth` holds.
pub fn migration_scripts(routes: &Vec<Route>, auth: bool) -> (r: MigrationPair)
    requires
        reserved_free(routes@, auth),
    ensures
        r.up@ == up_script(routes@, auth),
        r.down@ == down_script(routes@, auth),
{
    let mut up = String::new();
    let mut down = String::new();
    let mut i: usize = 0;
    assert(resource_tables(routes@.take(0)) =~= Seq::<Table>::empty());
    while i < routes.len()
        invariant
            i <= routes@.len(),
            up@ == creates_text(resource_tables(routes@.take(i as int))),
            down@ == drops_text(resource_tables(routes@.take(i as int))),
        decreases routes@.len() - i,
    {
        let n = routes[i].name.as_str();
        up.append("CREATE TABLE IF NOT EXISTS ");
        up.append(n);
        up.append(TABLE_COLUMNS);
        down.append("DROP TABLE ");
        down.append(n);
        down.append(";\n");
        let ghost ts = resource_tables(routes@.take(i + 1));
        assert(ts.drop_last() =~= resource_tables(routes@.take(i as int)));
        assert(ts.last() == Table::Resource(routes@[i as int].name@));
        assert(up@ =~= creates_text(ts));
        assert(down@ =~= drops_text(ts));
        i = i + 1;
    }
    assert(routes@.take(routes@.len() as int) =~= routes@);
    let ghost ts = resource_tables(routes@);
    if auth {
        up.append(USERS_DDL);
        up.append(SESSIONS_DDL);
        down.append("DROP TABLE ");
        down.append(SESSIONS_TABLE);
        down.append(";\n");
        down.append("DROP TABLE ");
        down.append(USERS_TABLE);
        down.append(";\n");
        proof {
            let c = created_tables(routes@, auth);
            let c1 = ts + seq![Table::Users];
            assert(c.drop_last() =~= c1);
            assert(c1.drop_last() =~= ts);
            assert(c1.last() == Table::Users);
            assert(c.last() == Table::Sessions);
            assert(creates_text(c1) == creates_text(ts) + create_stmt(Table::Users));
            assert(creates_text(c) == creates_text(c1) + create_stmt(Table::Sessions));
            assert(up@ =~= creates_text(c));
            let d = dropped_tables(routes@, auth);
            let d1 = ts + seq![Table::Sessions];
            assert(d.drop_last() =~= d1);
            assert(d1.drop_last() =~= ts);
            assert(d1.last() == Table::Sessions);
            assert(d.last() == Table::Users);
            assert(drops_text(d1) == drops_text(ts) + drop_stmt(Table::Sessions));
            assert(drops_text(d) == drops_text(d1) + drop_stmt(Table::Users));
            assert(down@ =~= drops_text(d));
        }
    }
    MigrationPair { up, down }
}

/// The file names of the two scripts; both start with the run's timestamp so
/// that they sort and pair together.
pub fn migration_file_names(timestamp: &str) -> (r: (String, String))
    ensures
        r.0@ == timestamp@ + "_schema.up.sql"@,
        r.1@ == timestamp@ + "_schema.down.sql"@,
{
    let mut up = String::from_str(timestamp);
    up.append("_schema.up.sql");
    let mut down = String::from_str(timestamp);
    down.append("_schema.down.sql");
    (up, down)
}

} // verus!
