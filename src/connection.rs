use vstd::prelude::*;
use crate::config::{ConnectionProperties, PropertiesView};
use crate::text::{blank, is_blank};

verus! {

/// `label` followed by `value`, or nothing when `value` is blank.
pub open spec fn segment(label: Seq<char>, value: Seq<char>) -> Seq<char> {
    if blank(value) {
        Seq::empty()
    } else {
        label + value
    }
}

/// The server-level connection string: host, user and password, each present
/// only when its value is not blank.
pub open spec fn server_string(p: PropertiesView) -> Seq<char> {
    segment("host="@, p.host) + segment(" user="@, p.username) + segment(" password="@, p.password)
}

/// The database-scoped connection string: the server-level one, followed by
/// the database name when that is not blank.
pub open spec fn database_string(p: PropertiesView) -> Seq<char> {
    server_string(p) + segment(" dbname="@, p.name)
}

fn append_segment(s: &mut String, label: &str, value: &str)
    ensures
        final(s)@ == old(s)@ + segment(label@, value@),
{
    if !is_blank(value) {
        s.append(label);
        s.append(value);
        assert(final(s)@ =~= old(s)@ + segment(label@, value@));
    } else {
        assert(old(s)@ + segment(label@, value@) =~= old(s)@);
    }
}

/// Builds the connection string for the server as a whole, without a database name.
pub fn connectionstring(connection_props: &ConnectionProperties) -> (r: String)
    ensures
        r@ == server_string(connection_props@),
{
    let mut connstring = String::new();
    append_segment(&mut connstring, "host=", connection_props.db_host);
    append_segment(&mut connstring, " user=", connection_props.db_username);
    append_segment(&mut connstring, " password=", connection_props.db_password);
    assert(connstring@ =~= server_string(connection_props@));
    connstring
}

/// Builds the connection string for the named database on the server.
pub fn connectionstring_with_db(connection_props: &ConnectionProperties) -> (r: String)
    ensures
        r@ == database_string(connection_props@),
{
    let mut connstring = connectionstring(connection_props);
    append_segment(&mut connstring, " dbname=", connection_props.db_name);
    connstring
}

/// The database-scoped string extends the server-level one by exactly
/// `" dbname=<name>"`, and by nothing when the name is blank.
pub proof fn lemma_database_string_extends_server_string(p: PropertiesView)
    ensures
        !blank(p.name) ==> database_string(p) == server_string(p) + " dbname="@ + p.name,
        blank(p.name) ==> database_string(p) == server_string(p),
{
    assert(blank(p.name) ==> server_string(p) + segment(" dbname="@, p.name) =~= server_string(p));
}

} // verus!
