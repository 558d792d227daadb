//! The configuration of the connection pool.

use std::str::FromStr;

use sqlx::sqlite::SqliteConnectOptions;
use vstd::prelude::*;

use crate::error::RegistryError;

verus! {

/// sqlx's options for a connection to SQLite,
/// `sqlx::sqlite::SqliteConnectOptions`. Nothing is known of its values.
#[verifier::external_type_specification]
#[verifier::external_body]
pub struct ExSqliteConnectOptions(SqliteConnectOptions);

/// sqlx's error, `sqlx::Error`. Nothing is known of its values.
#[verifier::external_type_specification]
#[verifier::external_body]
pub struct ExSqlxError(sqlx::Error);

/// Whether sqlx's parser of SQLite connection strings accepts `url`.
pub uninterp spec fn accepts_connection_string(url: Seq<char>) -> bool;

/// Calls `<SqliteConnectOptions as FromStr>::from_str` of sqlx on `url`.
///
/// Taken on trust: the parser accepts or rejects a string by the string
/// alone, so that [`accepts_connection_string`] says which it did. Nothing
/// is claimed of which strings it accepts, nor of the options it returns.
#[verifier::external_body]
fn parse_connection_string(url: &str) -> (r: Result<SqliteConnectOptions, sqlx::Error>)
    ensures
        r is Ok == accepts_connection_string(url@),
{
    SqliteConnectOptions::from_str(url)
}

/// Turns what the parser said of a connection string into the options to
/// connect with: a string that it rejected is a configuration error.
pub fn checked_options(parsed: Result<SqliteConnectOptions, sqlx::Error>) -> (r: Result<
    SqliteConnectOptions,
    RegistryError,
>)
    ensures
        match (parsed, r) {
            (Ok(options), Ok(checked)) => checked == options,
            (Err(_), Err(error)) => error == RegistryError::Config,
            _ => false,
        },
{
    match parsed {
        Ok(options) => Ok(options),
        Err(_) => Err(RegistryError::Config),
    }
}

/// The options to open the pool with, from the configured connection
/// string. A missing string and one that the parser rejects both give
/// [`RegistryError::Config`]; no other error comes from here.
pub fn connect_options(database_url: Option<&str>) -> (r: Result<SqliteConnectOptions, RegistryError>)
    ensures
        match database_url {
            Some(url) => r is Ok == accepts_connection_string(url@),
            None => r is Err,
        },
        r is Err ==> r->Err_0 == RegistryError::Config,
{
    match database_url {
        Some(url) => checked_options(parse_connection_string(url)),
        None => Err(RegistryError::Config),
    }
}

} // verus!
