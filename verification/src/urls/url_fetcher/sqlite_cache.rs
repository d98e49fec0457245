//! A cache backend persisted in SQLite through the `rusqlite` crate.
//!
//! The two tables, `redirect_cache` and `result_cache`, are modeled as
//! maps from the request URL's canonical string to the stored text; each
//! SQL statement stands behind a trusted wrapper whose contract states
//! what the statement does to those maps. The contracts describe a
//! connection with exclusive access to its database: nothing else writes
//! the two tables while the connection is held.

use ::url::ParseError as UrlParseError;
use rusqlite::OptionalExtension;
use vstd::prelude::*;

use super::super::parsed_url::Url;
use super::cache::BlockingUrlFetcherCache;
use super::cache::CacheError;

verus! {

#[verifier::external_type_specification]
#[verifier::external_body]
pub struct ExConnection(rusqlite::Connection);

#[verifier::external_type_specification]
#[verifier::external_body]
pub struct ExRusqliteError(rusqlite::Error);

/// The contents of a connection's `redirect_cache` table: request URL
/// text to redirect target text, `None` for a stored NULL.
pub uninterp spec fn redirect_table(c: rusqlite::Connection) -> Map<Seq<char>, Option<Seq<char>>>;

/// The contents of a connection's `result_cache` table: request URL text
/// to stored response body.
pub uninterp spec fn result_table(c: rusqlite::Connection) -> Map<Seq<char>, Seq<char>>;

/// Relies on rusqlite's `Connection::execute` running two
/// `CREATE TABLE IF NOT EXISTS` statements: creating the tables stores
/// and removes no row.
#[verifier::external_body]
fn create_tables(connection: &mut rusqlite::Connection) -> (r: Result<(), rusqlite::Error>)
    ensures
        redirect_table(*final (connection)) == redirect_table(*old(connection)),
        result_table(*final (connection)) == result_table(*old(connection)),
{
    connection.execute(
        "CREATE TABLE IF NOT EXISTS redirect_cache (
                request_url     TEXT NOT NULL PRIMARY KEY,
                redirect_url    TEXT
            )",
        (),
    )?;
    connection.execute(
        "CREATE TABLE IF NOT EXISTS result_cache (
                request_url     TEXT NOT NULL PRIMARY KEY,
                response_value  TEXT NOT NULL
            )",
        (),
    )?;
    Ok(())
}

/// Relies on rusqlite's `Connection::execute` running one
/// `INSERT OR REPLACE` statement on `redirect_cache`: on success exactly
/// the given row is upserted, on failure nothing is written (a single
/// statement is atomic), and `result_cache` is untouched either way.
#[verifier::external_body]
fn store_redirect_row(connection: &mut rusqlite::Connection, url: &Url, value: Option<&Url>) -> (r:
    Result<(), rusqlite::Error>)
    ensures
        result_table(*final (connection)) == result_table(*old(connection)),
        r matches Ok(_) ==> redirect_table(*final (connection)) == redirect_table(
            *old(connection),
        ).insert(
            url@.serialization,
            match value {
                Some(u) => Some(u@.serialization),
                None => None,
            },
        ),
        r matches Err(_) ==> redirect_table(*final (connection)) == redirect_table(
            *old(connection),
        ),
{
    connection.execute(
        "INSERT OR REPLACE INTO redirect_cache (request_url, redirect_url) VALUES (?1, ?2)",
        (url.as_str().to_string(), value.map(|u| u.as_str().to_string())),
    )?;
    Ok(())
}

/// Relies on rusqlite's `Connection::execute` running one
/// `INSERT OR REPLACE` statement on `result_cache`: on success exactly
/// the given row is upserted, on failure nothing is written, and
/// `redirect_cache` is untouched either way.
#[verifier::external_body]
fn store_result_row(connection: &mut rusqlite::Connection, url: &Url, value: &str) -> (r: Result<
    (),
    rusqlite::Error,
>)
    ensures
        redirect_table(*final (connection)) == redirect_table(*old(connection)),
        r matches Ok(_) ==> result_table(*final (connection)) == result_table(
            *old(connection),
        ).insert(url@.serialization, value@),
        r matches Err(_) ==> result_table(*final (connection)) == result_table(*old(connection)),
{
    connection.execute(
        "INSERT OR REPLACE INTO result_cache (request_url, response_value) VALUES (?1, ?2)",
        (url.as_str().to_string(), value.to_string()),
    )?;
    Ok(())
}

/// Relies on rusqlite's `Connection::query_row` and
/// `OptionalExtension::optional`: a SELECT changes no table and returns
/// the `redirect_url` column of the key's row — no row, a stored NULL,
/// or the stored text.
#[verifier::external_body]
fn fetch_redirect_row(connection: &mut rusqlite::Connection, url: &Url) -> (r: Result<
    Option<Option<String>>,
    rusqlite::Error,
>)
    ensures
        redirect_table(*final (connection)) == redirect_table(*old(connection)),
        result_table(*final (connection)) == result_table(*old(connection)),
        r matches Ok(row) ==> match row {
            None => !redirect_table(*old(connection)).contains_key(url@.serialization),
            Some(stored) => redirect_table(*old(connection)).contains_key(url@.serialization)
                && redirect_table(*old(connection))[url@.serialization] == stored.deep_view(),
        },
{
    connection.query_row(
        "SELECT redirect_url FROM redirect_cache WHERE request_url=?1",
        (url.as_str().to_string(),),
        |row| row.get(0),
    ).optional()
}

/// Relies on rusqlite's `Connection::query_row` and
/// `OptionalExtension::optional`: a SELECT changes no table and returns
/// the `response_value` column of the key's row, if there is one.
#[verifier::external_body]
fn fetch_result_row(connection: &mut rusqlite::Connection, url: &Url) -> (r: Result<
    Option<String>,
    rusqlite::Error,
>)
    ensures
        redirect_table(*final (connection)) == redirect_table(*old(connection)),
        result_table(*final (connection)) == result_table(*old(connection)),
        r matches Ok(row) ==> match row {
            None => !result_table(*old(connection)).contains_key(url@.serialization),
            Some(stored) => result_table(*old(connection)).contains_key(url@.serialization)
                && result_table(*old(connection))[url@.serialization] == stored@,
        },
{
    connection.query_row(
        "SELECT response_value FROM result_cache WHERE request_url=?1",
        (url.as_str().to_string(),),
        |row| row.get(0),
    ).optional()
}

/// Why a read from the SQLite cache failed.
#[derive(Debug)]
pub enum BlockingFetchError {
    /// The SQL statement failed.
    SQLError(rusqlite::Error),
    /// A stored redirect target did not parse back as a URL.
    InvalidUrlError(UrlParseError),
}

/// A cache backend over a SQLite connection.
pub struct RusqliteBlockingUrlFetcherCache {
    connection: rusqlite::Connection,
}

impl RusqliteBlockingUrlFetcherCache {
    /// Wraps a connection, creating the two cache tables if they do not
    /// exist yet. The rows the connection already holds are kept.
    pub fn new(connection: rusqlite::Connection) -> (r: Result<Self, rusqlite::Error>)
        ensures
            r matches Ok(cache) ==> cache.redirect_model() == redirect_table(connection)
                && cache.result_model() == result_table(connection),
    {
        let mut connection = connection;
        match create_tables(&mut connection) {
            Ok(_) => Ok(RusqliteBlockingUrlFetcherCache { connection }),
            Err(e) => Err(e),
        }
    }
}

impl BlockingUrlFetcherCache for RusqliteBlockingUrlFetcherCache {
    type FetchError = BlockingFetchError;

    type StoreError = rusqlite::Error;

    closed spec fn redirect_model(&self) -> Map<Seq<char>, Option<Seq<char>>> {
        redirect_table(self.connection)
    }

    closed spec fn result_model(&self) -> Map<Seq<char>, Seq<char>> {
        result_table(self.connection)
    }

    fn fetch_redirect_url_blocking(&mut self, url: &Url) -> (r: Result<
        Option<Url>,
        CacheError<BlockingFetchError>,
    >) {
        match fetch_redirect_row(&mut self.connection, url) {
            Ok(None) => Err(CacheError::NoCacheValue),
            Ok(Some(None)) => Ok(None),
            Ok(Some(Some(text))) => match Url::parse(text.as_str()) {
                Ok(u) => Ok(Some(u)),
                Err(e) => Err(CacheError::CacheFetchError(BlockingFetchError::InvalidUrlError(e))),
            },
            Err(e) => Err(CacheError::CacheFetchError(BlockingFetchError::SQLError(e))),
        }
    }

    fn fetch_result_blocking(&mut self, url: &Url) -> (r: Result<
        String,
        CacheError<BlockingFetchError>,
    >) {
        match fetch_result_row(&mut self.connection, url) {
            Ok(None) => Err(CacheError::NoCacheValue),
            Ok(Some(text)) => Ok(text),
            Err(e) => Err(CacheError::CacheFetchError(BlockingFetchError::SQLError(e))),
        }
    }

    fn store_redirect_blocking(&mut self, url: &Url, value: Option<Url>) -> (r: Result<
        (),
        rusqlite::Error,
    >) {
        store_redirect_row(&mut self.connection, url, value.as_ref())
    }

    fn store_result_blocking(&mut self, url: &Url, value: &str) -> (r: Result<
        (),
        rusqlite::Error,
    >) {
        store_result_row(&mut self.connection, url, value)
    }
}

} // verus!
