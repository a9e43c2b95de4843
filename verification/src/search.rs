//! The search-field selector and the matching rule it selects.
//!
//! A selector names one searchable column, or `all`. Any unrecognized
//! selector is treated exactly like `all` (fail-open, a preserved design
//! choice). A specific selector tests a single field; `all` fans out over
//! the nine searchable text columns. A field that is absent never matches,
//! not even an empty query.

use vstd::prelude::*;
use crate::person::Person;
use crate::text::{contains_ci, str_contains_ci, str_eq};

verus! {

/// A search request: free-text query and a field selector, both as given by
/// the caller.
#[derive(Debug, Clone, PartialEq)]
pub struct SearchQuery {
    pub query: String,
    pub field: String,
}

/// The column(s) a search targets: one of the six individually reachable
/// fields, or the fan-out over all nine searchable columns.
#[derive(Debug, Clone, Copy, PartialEq, Eq, Structural)]
pub enum Field {
    Name,
    Email,
    Company,
    Title,
    Location,
    Notes,
    All,
}

/// The selector a given string denotes. Exactly six strings name individual
/// fields; `"all"` and every other string denote the fan-out.
pub open spec fn spec_selector(s: Seq<char>) -> Field {
    if s == "name"@ {
        Field::Name
    } else if s == "email"@ {
        Field::Email
    } else if s == "company"@ {
        Field::Company
    } else if s == "title"@ {
        Field::Title
    } else if s == "location"@ {
        Field::Location
    } else if s == "notes"@ {
        Field::Notes
    } else {
        Field::All
    }
}

/// Resolve a selector string to the field it denotes; an unrecognized
/// selector resolves to `Field::All`.
pub fn parse_selector(s: &str) -> (f: Field)
    ensures
        f == spec_selector(s@),
{
    if str_eq(s, "name") {
        Field::Name
    } else if str_eq(s, "email") {
        Field::Email
    } else if str_eq(s, "company") {
        Field::Company
    } else if str_eq(s, "title") {
        Field::Title
    } else if str_eq(s, "location") {
        Field::Location
    } else if str_eq(s, "notes") {
        Field::Notes
    } else {
        Field::All
    }
}

/// An optional field matches the query iff it is present and contains the
/// query case-insensitively: absence is not a substring of anything.
pub open spec fn opt_matches(o: Option<String>, q: Seq<char>) -> bool {
    match o {
        Some(s) => contains_ci(s@, q),
        None => false,
    }
}

/// Does a record match the query under the given field selector?
/// A specific field tests that field's column alone; `All` is the
/// disjunction over the nine searchable columns.
pub open spec fn person_matches(p: Person, q: Seq<char>, f: Field) -> bool {
    match f {
        Field::Name => contains_ci(p.name@, q),
        Field::Email => opt_matches(p.email, q),
        Field::Company => opt_matches(p.company, q),
        Field::Title => opt_matches(p.title, q),
        Field::Location => opt_matches(p.location_met, q),
        Field::Notes => opt_matches(p.notes, q),
        Field::All => {
            ||| contains_ci(p.name@, q)
            ||| opt_matches(p.email, q)
            ||| opt_matches(p.company, q)
            ||| opt_matches(p.title, q)
            ||| opt_matches(p.location_met, q)
            ||| opt_matches(p.notes, q)
            ||| opt_matches(p.phone, q)
            ||| opt_matches(p.tags, q)
            ||| opt_matches(p.linkedin, q)
        },
    }
}

fn opt_contains(o: &Option<String>, q: &str) -> (r: bool)
    ensures
        r == opt_matches(*o, q@),
{
    match o {
        Some(s) => str_contains_ci(s.as_str(), q),
        None => false,
    }
}

/// Decide whether a record matches the query under the given selector.
pub fn record_matches(p: &Person, q: &str, f: Field) -> (r: bool)
    ensures
        r == person_matches(*p, q@, f),
{
    match f {
        Field::Name => str_contains_ci(p.name.as_str(), q),
        Field::Email => opt_contains(&p.email, q),
        Field::Company => opt_contains(&p.company, q),
        Field::Title => opt_contains(&p.title, q),
        Field::Location => opt_contains(&p.location_met, q),
        Field::Notes => opt_contains(&p.notes, q),
        Field::All => {
            str_contains_ci(p.name.as_str(), q) || opt_contains(&p.email, q)
                || opt_contains(&p.company, q) || opt_contains(&p.title, q)
                || opt_contains(&p.location_met, q) || opt_contains(&p.notes, q)
                || opt_contains(&p.phone, q) || opt_contains(&p.tags, q)
                || opt_contains(&p.linkedin, q)
        },
    }
}

} // verus!
