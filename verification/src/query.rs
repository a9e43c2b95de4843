//! The parameterized query texts the store's operations are built on.
//!
//! A caller that drives a SQL engine takes the statement text and the bind
//! count from here, so the field-to-column mapping and the wildcard pattern
//! construction stay in one verified place. A specific selector targets
//! exactly one column; the fan-out statement targets all nine searchable
//! columns, each bound to the same pattern.

use vstd::prelude::*;
use crate::search::Field;

verus! {

/// The table-creation statement: idempotent, fixed column set, `id` assigned
/// by the engine, `name` the only mandatory text column.
pub open spec fn spec_schema_sql() -> Seq<char> {
    "CREATE TABLE IF NOT EXISTS people (id INTEGER PRIMARY KEY AUTOINCREMENT, name TEXT NOT NULL, title TEXT, company TEXT, email TEXT, phone TEXT, tags TEXT, notes TEXT, date_met TEXT, location_met TEXT, linkedin TEXT)"@
}

/// The selection statement a search under the given field runs: one `LIKE`
/// test against the selected column, or the disjunction over all nine
/// searchable columns for the fan-out.
pub open spec fn spec_search_sql(f: Field) -> Seq<char> {
    match f {
        Field::Name => "SELECT * FROM people WHERE name LIKE ?"@,
        Field::Email => "SELECT * FROM people WHERE email LIKE ?"@,
        Field::Company => "SELECT * FROM people WHERE company LIKE ?"@,
        Field::Title => "SELECT * FROM people WHERE title LIKE ?"@,
        Field::Location => "SELECT * FROM people WHERE location_met LIKE ?"@,
        Field::Notes => "SELECT * FROM people WHERE notes LIKE ?"@,
        Field::All => "SELECT * FROM people WHERE name LIKE ? OR email LIKE ? OR company LIKE ? OR title LIKE ? OR location_met LIKE ? OR notes LIKE ? OR phone LIKE ? OR tags LIKE ? OR linkedin LIKE ?"@,
    }
}

/// How many placeholders the statement for the given field has: one per
/// targeted column.
pub open spec fn spec_bind_count(f: Field) -> int {
    if f is All {
        9
    } else {
        1
    }
}

/// The table-creation statement, for the caller that owns the engine handle.
pub fn schema_sql() -> (s: &'static str)
    ensures
        s@ == spec_schema_sql(),
{
    "CREATE TABLE IF NOT EXISTS people (id INTEGER PRIMARY KEY AUTOINCREMENT, name TEXT NOT NULL, title TEXT, company TEXT, email TEXT, phone TEXT, tags TEXT, notes TEXT, date_met TEXT, location_met TEXT, linkedin TEXT)"
}

/// The selection statement for a search under the given field.
pub fn search_sql(f: Field) -> (s: &'static str)
    ensures
        s@ == spec_search_sql(f),
{
    match f {
        Field::Name => "SELECT * FROM people WHERE name LIKE ?",
        Field::Email => "SELECT * FROM people WHERE email LIKE ?",
        Field::Company => "SELECT * FROM people WHERE company LIKE ?",
        Field::Title => "SELECT * FROM people WHERE title LIKE ?",
        Field::Location => "SELECT * FROM people WHERE location_met LIKE ?",
        Field::Notes => "SELECT * FROM people WHERE notes LIKE ?",
        Field::All => "SELECT * FROM people WHERE name LIKE ? OR email LIKE ? OR company LIKE ? OR title LIKE ? OR location_met LIKE ? OR notes LIKE ? OR phone LIKE ? OR tags LIKE ? OR linkedin LIKE ?",
    }
}

/// How many times the pattern must be bound to the statement for the given
/// field.
pub fn bind_count(f: Field) -> (n: usize)
    ensures
        n == spec_bind_count(f),
{
    match f {
        Field::All => 9,
        _ => 1,
    }
}

/// The wildcard-wrapped pattern for a query: `%query%`, so the engine's
/// `LIKE` performs a substring match. An empty query yields `%%`, which
/// matches every non-null value.
pub fn like_pattern(q: &str) -> (p: String)
    ensures
        p@ == "%"@ + q@ + "%"@,
{
    let mut s = String::from_str("%");
    s.append(q);
    s.append("%");
    s
}

} // verus!
