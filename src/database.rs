//! The statements the guild configuration is read and written with.

use vstd::prelude::*;
use crate::template::{decimal, decimal_chars};
use crate::text::string_of;

verus! {

/// The prefix a guild gets until it sets one.
pub const DEFAULT_PREFIX: &'static str = "!";

/// The statement that stores `column` for a guild: an update where the
/// guild has a row, an insertion otherwise.
pub open spec fn upsert_text(table: Seq<char>, column: Seq<char>, update: bool) -> Seq<char> {
    if update {
        "UPDATE "@ + table + " SET "@ + column + " = :"@ + column + " WHERE server_id = :server_id"@
    } else {
        "INSERT INTO "@ + table + " (server_id, "@ + column + ") VALUES (:server_id, :"@ + column
            + ")"@
    }
}

/// The statement that stores `column` for a guild.
pub fn upsert_statement(table: &str, column: &str, update: bool) -> (r: String)
    ensures
        r@ == upsert_text(table@, column@, update),
{
    if update {
        let mut s = String::from_str("UPDATE ");
        s.append(table);
        s.append(" SET ");
        s.append(column);
        s.append(" = :");
        s.append(column);
        s.append(" WHERE server_id = :server_id");
        s
    } else {
        let mut s = String::from_str("INSERT INTO ");
        s.append(table);
        s.append(" (server_id, ");
        s.append(column);
        s.append(") VALUES (:server_id, :");
        s.append(column);
        s.append(")");
        s
    }
}

/// The statement that reads `column` of a guild.
pub fn select_statement(column: &str, table: &str, server_id: u64) -> (r: String)
    ensures
        r@ == "SELECT "@ + column@ + " FROM "@ + table@ + " WHERE server_id="@ + decimal(
            server_id as nat,
        ),
{
    let mut s = String::from_str("SELECT ");
    s.append(column);
    s.append(" FROM ");
    s.append(table);
    s.append(" WHERE server_id=");
    let id = string_of(&decimal_chars(server_id));
    s.append(id.as_str());
    s
}

/// The statement that deletes a guild's row.
pub fn delete_statement(table: &str) -> (r: String)
    ensures
        r@ == "DELETE FROM "@ + table@ + " WHERE server_id = :server_id LIMIT 1"@,
{
    let mut s = String::from_str("DELETE FROM ");
    s.append(table);
    s.append(" WHERE server_id = :server_id LIMIT 1");
    s
}

/// A guild's prefix: the stored one, or the default, which then has to be
/// stored (the flag says so).
pub fn prefix_or_default(stored: Option<String>) -> (r: (String, bool))
    ensures
        stored matches Some(p) ==> r.0 == p && !r.1,
        stored is None ==> r.0@ == DEFAULT_PREFIX@ && r.1,
{
    match stored {
        Some(p) => (p, false),
        None => (String::from_str(DEFAULT_PREFIX), true),
    }
}

} // verus!
