//! The opaque session to the external message store: it executes the
//! store's parameterized procedures and hands back rows of scalar columns.

use vstd::prelude::*;

use crate::settings::Settings;

verus! {

#[verifier::external_type_specification]
#[verifier::external_body]
pub struct ExClient(postgres::Client);

#[verifier::external_type_specification]
#[verifier::external_body]
pub struct ExPostgresError(postgres::Error);

/// The underlying store session failed to initialize or to execute a query.
#[derive(Debug)]
pub enum SessionError {
    PostgresError(postgres::Error),
}

/// Relies on `postgres::Client::connect` with `NoTls`: opens a connection to
/// the store at the given url, or reports the driver's error.
#[verifier::external_body]
fn connect(url: &String) -> Result<postgres::Client, postgres::Error> {
    postgres::Client::connect(url.as_str(), postgres::NoTls)
}

/// Relies on `postgres::Client::query` over the store's
/// `get_category_messages` procedure, reading each returned row's
/// `global_position` column as a signed 64-bit integer. What comes back
/// depends on the external store, so nothing is promised of the values.
#[verifier::external_body]
fn query_category_messages(
    client: &mut postgres::Client,
    category: &String,
    position: i64,
    batch_size: Option<i64>,
    correlation: &Option<String>,
    consumer_group_member: Option<i64>,
    consumer_group_size: Option<i64>,
    condition: &Option<String>,
) -> Result<Vec<i64>, postgres::Error> {
    let rows = client.query(
        "SELECT * FROM get_category_messages($1::varchar, $2::bigint, $3::bigint, $4::varchar, $5::bigint, $6::bigint, $7::varchar);",
        &[category, &position, &batch_size, correlation, &consumer_group_member, &consumer_group_size, condition],
    )?;
    let mut out = Vec::new();
    for row in rows {
        out.push(row.try_get("global_position")?);
    }
    Ok(out)
}

/// Relies on `postgres::Client::query` over the store's `write_message`
/// procedure: appends one message to the named stream with the given type
/// and JSON body; `-1` for the expected version leaves the stream's version
/// unchecked.
#[verifier::external_body]
fn query_write_message(
    client: &mut postgres::Client,
    id: &String,
    stream_name: &String,
    message_type: &String,
    data: &String,
) -> Result<(), postgres::Error> {
    let expected_version: i64 = -1;
    client.query(
        "SELECT write_message($1::varchar, $2::varchar, $3::varchar, $4::jsonb, NULL::jsonb, $5::bigint);",
        &[id, stream_name, message_type, data, &expected_version],
    )?;
    Ok(())
}

/// Relies on `postgres::Client::query` over the store's
/// `get_last_stream_message` procedure, reading the `position` field out of
/// the last message's JSON body: the value recorded there, if the stream
/// holds any message with one.
#[verifier::external_body]
fn query_last_recorded_position(
    client: &mut postgres::Client,
    stream_name: &String,
) -> Result<Option<i64>, postgres::Error> {
    let rows = client.query(
        "SELECT (data::jsonb->>'position')::bigint AS position FROM get_last_stream_message($1::varchar);",
        &[stream_name],
    )?;
    match rows.first() {
        Some(row) => row.try_get("position"),
        None => Ok(None),
    }
}

/// Relies on `postgres::Error`'s `Display` implementation: the driver's own
/// description of a failure, for carrying the cause in the library's errors.
#[verifier::external_body]
pub(crate) fn error_text(error: &postgres::Error) -> String {
    format!("{}", error)
}

/// An open session to the external message store. The transport and the
/// store's state are outside the library, so the session's operations
/// promise nothing of the values they return; callers validate what they
/// receive.
pub struct Session {
    client: postgres::Client,
}

impl Session {
    /// Open a session to the store named by the default settings.
    pub fn build() -> Result<Session, SessionError> {
        let settings = Settings::build();
        match connect(&settings.message_db_url) {
            Ok(client) => Ok(Session { client }),
            Err(error) => Err(SessionError::PostgresError(error)),
        }
    }

    /// Fetch the global positions of one batch of category messages,
    /// honoring batch size, correlation filter, consumer-group partition and
    /// server-side condition.
    pub fn get_category_messages(
        &mut self,
        category: &String,
        position: i64,
        batch_size: Option<i64>,
        correlation: &Option<String>,
        consumer_group_member: Option<i64>,
        consumer_group_size: Option<i64>,
        condition: &Option<String>,
    ) -> Result<Vec<i64>, SessionError> {
        match query_category_messages(
            &mut self.client,
            category,
            position,
            batch_size,
            correlation,
            consumer_group_member,
            consumer_group_size,
            condition,
        ) {
            Ok(rows) => Ok(rows),
            Err(error) => Err(SessionError::PostgresError(error)),
        }
    }

    /// Append one message to a stream.
    pub fn write_message(
        &mut self,
        id: &String,
        stream_name: &String,
        message_type: &String,
        data: &String,
    ) -> Result<(), SessionError> {
        match query_write_message(&mut self.client, id, stream_name, message_type, data) {
            Ok(written) => Ok(written),
            Err(error) => Err(SessionError::PostgresError(error)),
        }
    }

    /// The `position` recorded in a stream's last message, if any.
    pub fn last_recorded_position(
        &mut self,
        stream_name: &String,
    ) -> Result<Option<i64>, SessionError> {
        match query_last_recorded_position(&mut self.client, stream_name) {
            Ok(position) => Ok(position),
            Err(error) => Err(SessionError::PostgresError(error)),
        }
    }
}

} // verus!
