use vstd::prelude::*;
use crate::config::{ConnectionProperties, PropertiesView};
use crate::connection::{
    connectionstring, connectionstring_with_db, database_string, server_string,
};

verus! {

/// One lifecycle action on the database.
#[derive(Clone, Copy, Debug, PartialEq, Eq, Structural)]
pub enum Action {
    Drop,
    Create,
    Migrate,
    Seed,
}

/// Whether an action connects to the server as a whole (`true`) or to the
/// named database: creating and dropping a database cannot happen from inside it.
pub open spec fn server_level(a: Action) -> bool {
    a is Drop || a is Create
}

/// The connection string that an action connects with.
pub open spec fn action_connection(a: Action, p: PropertiesView) -> Seq<char> {
    if server_level(a) {
        server_string(p)
    } else {
        database_string(p)
    }
}

pub open spec fn past_tense(a: Action) -> Seq<char> {
    match a {
        Action::Drop => "dropped"@,
        Action::Create => "created"@,
        Action::Migrate => "migrated"@,
        Action::Seed => "seeded"@,
    }
}

/// The line that reports a successful action on database `name`.
pub open spec fn confirmation_text(a: Action, name: Seq<char>) -> Seq<char> {
    "Database "@ + name + " "@ + past_tense(a) + "."@
}

pub open spec fn drop_text(p: PropertiesView) -> Seq<char> {
    "DROP DATABASE IF EXISTS "@ + p.name + ";"@
}

pub open spec fn create_text(p: PropertiesView) -> Seq<char> {
    "CREATE DATABASE "@ + p.name + " WITH OWNER="@ + p.username
        + " LC_COLLATE='en_GB.utf8' LC_CTYPE='en_GB.utf8' TEMPLATE=template0 ENCODING=UTF8;"@
}

impl Action {
    /// The connection string this action connects with.
    pub fn connection_string(self, connection_props: &ConnectionProperties) -> (r: String)
        ensures
            r@ == action_connection(self, connection_props@),
    {
        match self {
            Action::Drop | Action::Create => connectionstring(connection_props),
            Action::Migrate | Action::Seed => connectionstring_with_db(connection_props),
        }
    }

    fn past_tense(self) -> (r: &'static str)
        ensures
            r@ == past_tense(self),
    {
        match self {
            Action::Drop => "dropped",
            Action::Create => "created",
            Action::Migrate => "migrated",
            Action::Seed => "seeded",
        }
    }

    /// The confirmation printed once this action has succeeded on database `name`.
    pub fn confirmation(self, name: &str) -> (r: String)
        ensures
            r@ == confirmation_text(self, name@),
    {
        let mut m = String::from_str("Database ");
        m.append(name);
        m.append(" ");
        m.append(self.past_tense());
        m.append(".");
        m
    }
}

/// The statement that drops the configured database, doing nothing if it does not exist.
pub fn drop_statement(connection_props: &ConnectionProperties) -> (r: String)
    ensures
        r@ == drop_text(connection_props@),
{
    let mut q = String::from_str("DROP DATABASE IF EXISTS ");
    q.append(connection_props.db_name);
    q.append(";");
    q
}

/// The statement that creates the configured database, owned by the configured
/// user, from `template0` with UTF-8 encoding and `en_GB.utf8` collation and ctype.
pub fn create_statement(connection_props: &ConnectionProperties) -> (r: String)
    ensures
        r@ == create_text(connection_props@),
{
    let mut q = String::from_str("CREATE DATABASE ");
    q.append(connection_props.db_name);
    q.append(" WITH OWNER=");
    q.append(connection_props.db_username);
    q.append(
        " LC_COLLATE='en_GB.utf8' LC_CTYPE='en_GB.utf8' TEMPLATE=template0 ENCODING=UTF8;",
    );
    q
}

} // verus!
