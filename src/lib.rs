//! Provisioning helper for a single PostgreSQL database: validated connection
//! settings, connection strings, administrative statements, and the rules that
//! decide which lifecycle actions run and how their outcomes are reported.
mod action;
mod config;
mod connection;
mod dispatch;
mod text;

pub use action::{
    action_connection, confirmation_text, create_statement, create_text, drop_statement,
    drop_text, past_tense, server_level, Action,
};
pub use config::{
    env_key, error_message, first_error, lemma_single_bad_variable, load_config,
    missing_message, opt_view, value_of, var_error, ConfigError, ConnectionProperties, EnvVar,
    PropertiesView,
};
pub use connection::{
    connectionstring, connectionstring_with_db, database_string,
    lemma_database_string_extends_server_string, segment, server_string,
};
pub use dispatch::{
    lemma_accepted_plans, plan, requested, usage_error, when_set, Directive, Flags, Outcome,
    Session, UsageError, EXIT_FAILURE, EXIT_SUCCESS,
};
pub use text::{blank, is_blank, white_space};
