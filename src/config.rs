use vstd::prelude::*;
use crate::text::{blank, is_blank};

verus! {

/// The four settings that locate and authenticate against the database server.
pub struct ConnectionProperties<'cp> {
    pub db_host: &'cp str,
    pub db_name: &'cp str,
    pub db_username: &'cp str,
    pub db_password: &'cp str,
}

/// The settings as character sequences.
pub struct PropertiesView {
    pub host: Seq<char>,
    pub name: Seq<char>,
    pub username: Seq<char>,
    pub password: Seq<char>,
}

impl<'cp> View for ConnectionProperties<'cp> {
    type V = PropertiesView;

    open spec fn view(&self) -> PropertiesView {
        PropertiesView {
            host: self.db_host@,
            name: self.db_name@,
            username: self.db_username@,
            password: self.db_password@,
        }
    }
}

/// The environment variables that the settings are read from, in the order
/// in which they are checked.
#[derive(Clone, Copy, Debug, PartialEq, Eq, Structural)]
pub enum EnvVar {
    Host,
    Name,
    User,
    Password,
}

pub open spec fn env_key(v: EnvVar) -> Seq<char> {
    match v {
        EnvVar::Host => "DB_HOST"@,
        EnvVar::Name => "DB_NAME"@,
        EnvVar::User => "DB_USER"@,
        EnvVar::Password => "DB_PASSWORD"@,
    }
}

impl EnvVar {
    /// The name of the environment variable.
    pub fn key(self) -> (r: &'static str)
        ensures
            r@ == env_key(self),
    {
        match self {
            EnvVar::Host => "DB_HOST",
            EnvVar::Name => "DB_NAME",
            EnvVar::User => "DB_USER",
            EnvVar::Password => "DB_PASSWORD",
        }
    }
}

/// Why the settings could not be assembled.
#[derive(Clone, Copy, Debug, PartialEq, Eq, Structural)]
pub enum ConfigError {
    /// A variable is not set at all.
    Missing,
    /// The variable is set but holds only whitespace.
    Empty(EnvVar),
}

pub open spec fn missing_message() -> Seq<char> {
    "ERROR: missing environment variables.\nEnsure all of the following environment variables are set:\nDB_HOST DB_NAME DB_USER DB_PASSWORD"@
}

pub open spec fn error_message(e: ConfigError) -> Seq<char> {
    match e {
        ConfigError::Missing => missing_message(),
        ConfigError::Empty(v) => "ERROR: "@ + env_key(v) + " is empty!"@,
    }
}

impl ConfigError {
    /// The message shown to the operator before the process exits.
    pub fn message(&self) -> (r: String)
        ensures
            r@ == error_message(*self),
    {
        match self {
            ConfigError::Missing => String::from_str(
                "ERROR: missing environment variables.\nEnsure all of the following environment variables are set:\nDB_HOST DB_NAME DB_USER DB_PASSWORD",
            ),
            ConfigError::Empty(v) => {
                let mut m = String::from_str("ERROR: ");
                m.append(v.key());
                m.append(" is empty!");
                m
            },
        }
    }
}

/// What a single variable contributes: `None` when it is usable, else the error it raises.
pub open spec fn var_error(value: Option<Seq<char>>, v: EnvVar) -> Option<ConfigError> {
    match value {
        None => Some(ConfigError::Missing),
        Some(s) => if blank(s) {
            Some(ConfigError::Empty(v))
        } else {
            None
        },
    }
}

/// The error of the first variable, in checking order, that is unusable.
pub open spec fn first_error(
    host: Option<Seq<char>>,
    name: Option<Seq<char>>,
    user: Option<Seq<char>>,
    password: Option<Seq<char>>,
) -> Option<ConfigError> {
    if var_error(host, EnvVar::Host) is Some {
        var_error(host, EnvVar::Host)
    } else if var_error(name, EnvVar::Name) is Some {
        var_error(name, EnvVar::Name)
    } else if var_error(user, EnvVar::User) is Some {
        var_error(user, EnvVar::User)
    } else {
        var_error(password, EnvVar::Password)
    }
}

pub open spec fn opt_view(o: Option<&str>) -> Option<Seq<char>> {
    match o {
        Some(s) => Some(s@),
        None => None,
    }
}

fn check_var(value: Option<&str>, v: EnvVar) -> (r: Option<ConfigError>)
    ensures
        r == var_error(opt_view(value), v),
{
    match value {
        None => Some(ConfigError::Missing),
        Some(s) => if is_blank(s) {
            Some(ConfigError::Empty(v))
        } else {
            None
        },
    }
}

/// Assembles the settings from the values of `DB_HOST`, `DB_NAME`, `DB_USER`
/// and `DB_PASSWORD` (`None` for a variable that is not set). The variables
/// are checked in that order and the first unusable one decides the error;
/// all four must be set and not blank for the settings to be returned.
pub fn load_config<'a>(
    host: Option<&'a str>,
    name: Option<&'a str>,
    user: Option<&'a str>,
    password: Option<&'a str>,
) -> (r: Result<ConnectionProperties<'a>, ConfigError>)
    ensures
        first_error(opt_view(host), opt_view(name), opt_view(user), opt_view(password)) matches Some(e)
            ==> r == Err::<ConnectionProperties<'a>, ConfigError>(e),
        first_error(opt_view(host), opt_view(name), opt_view(user), opt_view(password)) is None
            ==> (r matches Ok(p) && host == Some(p.db_host) && name == Some(p.db_name)
                && user == Some(p.db_username) && password == Some(p.db_password)),
{
    if let Some(e) = check_var(host, EnvVar::Host) {
        return Err(e);
    }
    if let Some(e) = check_var(name, EnvVar::Name) {
        return Err(e);
    }
    if let Some(e) = check_var(user, EnvVar::User) {
        return Err(e);
    }
    if let Some(e) = check_var(password, EnvVar::Password) {
        return Err(e);
    }
    Ok(
        ConnectionProperties {
            db_host: host.unwrap(),
            db_name: name.unwrap(),
            db_username: user.unwrap(),
            db_password: password.unwrap(),
        },
    )
}

/// The value among the four that belongs to variable `v`.
pub open spec fn value_of(
    v: EnvVar,
    host: Option<Seq<char>>,
    name: Option<Seq<char>>,
    user: Option<Seq<char>>,
    password: Option<Seq<char>>,
) -> Option<Seq<char>> {
    match v {
        EnvVar::Host => host,
        EnvVar::Name => name,
        EnvVar::User => user,
        EnvVar::Password => password,
    }
}

/// When every variable but `v` is set and not blank, leaving `v` unset yields
/// the fixed "missing" error, and setting it to whitespace only yields the
/// error that names `v`; either way nothing is assembled.
pub proof fn lemma_single_bad_variable(
    v: EnvVar,
    host: Option<Seq<char>>,
    name: Option<Seq<char>>,
    user: Option<Seq<char>>,
    password: Option<Seq<char>>,
)
    requires
        forall|w: EnvVar|
            w != v ==> (#[trigger] value_of(w, host, name, user, password) matches Some(s) && !blank(s)),
    ensures
        value_of(v, host, name, user, password) is None
            ==> first_error(host, name, user, password) == Some(ConfigError::Missing),
        value_of(v, host, name, user, password) matches Some(s) && blank(s)
            ==> first_error(host, name, user, password) == Some(ConfigError::Empty(v)),
{
    assert(value_of(EnvVar::Host, host, name, user, password) == host);
    assert(value_of(EnvVar::Name, host, name, user, password) == name);
    assert(value_of(EnvVar::User, host, name, user, password) == user);
    assert(value_of(EnvVar::Password, host, name, user, password) == password);
}

} // verus!
