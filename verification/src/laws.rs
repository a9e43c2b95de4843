//! The laws the store obeys, stated over its specification model and proved
//! once for all inputs. Each exec operation's contract pins its result to
//! that model (`spec_find`, `spec_update`, `spec_delete`, `spec_search`), so
//! these laws carry over to the operations themselves.

use vstd::prelude::*;
use crate::person::{Person, NewPerson, with_id};
use crate::search::{Field, spec_selector, person_matches, opt_matches};
use crate::store::{spec_find, spec_update, spec_delete, spec_search, ids_below,
    lemma_find_first, lemma_find_none};
use crate::text::{contains_ci, lemma_empty_needle};

verus! {

/// Round-trip: looking up a freshly created record finds exactly the input
/// fields under the assigned id — every unspecified optional field is the
/// `None` the input held, nothing else is set or cleared.
pub proof fn law_round_trip(rows: Seq<Person>, next_id: i64, n: NewPerson)
    requires
        ids_below(rows, next_id),
    ensures
        spec_find(rows.push(with_id(n, next_id)), next_id) == Some(with_id(n, next_id)),
{
    let rows2 = rows.push(with_id(n, next_id));
    assert(rows2[rows.len() as int] == with_id(n, next_id));
    lemma_find_first(rows2, next_id, rows.len() as int);
}

/// A record is carried at its first position with a given id, if any.
proof fn lemma_find_first_witness(rows: Seq<Person>, id: i64)
    requires
        spec_find(rows, id) is Some,
    ensures
        exists|i: int|
            0 <= i < rows.len() && (#[trigger] rows[i]).id == id && (forall|j: int|
                0 <= j < i ==> #[trigger] rows[j].id != id),
    decreases rows.len(),
{
    if rows[0].id == id {
        assert(rows[0].id == id && (forall|j: int| 0 <= j < 0 ==> #[trigger] rows[j].id != id));
    } else {
        lemma_find_first_witness(rows.drop_first(), id);
        let i = choose|i: int|
            0 <= i < rows.drop_first().len() && (#[trigger] rows.drop_first()[i]).id == id
                && (forall|j: int| 0 <= j < i ==> #[trigger] rows.drop_first()[j].id != id);
        assert(rows[i + 1].id == id);
        assert forall|j: int| 0 <= j < i + 1 implies #[trigger] rows[j].id != id by {
            if j > 0 {
                assert(rows.drop_first()[j - 1].id != id);
            }
        }
    }
}

/// Update overwrite: after a full-overwrite update of an existing id, a
/// lookup of that id yields exactly the new fields under that id — no field
/// of the previous record survives unless repeated in the new one.
pub proof fn law_update_overwrite(rows: Seq<Person>, id: i64, p2: NewPerson)
    requires
        spec_find(rows, id) is Some,
    ensures
        spec_find(spec_update(rows, id, p2), id) == Some(with_id(p2, id)),
{
    let updated = spec_update(rows, id, p2);
    lemma_find_first_witness(rows, id);
    let i = choose|i: int|
        0 <= i < rows.len() && (#[trigger] rows[i]).id == id && (forall|j: int|
            0 <= j < i ==> #[trigger] rows[j].id != id);
    assert(updated[i] == with_id(p2, id));
    assert(forall|j: int| 0 <= j < i ==> #[trigger] updated[j].id != id);
    lemma_find_first(updated, id, i);
}

/// Delete removes: after a delete, a lookup of the deleted id finds nothing,
/// and no remaining row carries that id.
pub proof fn law_delete_removes(rows: Seq<Person>, id: i64)
    ensures
        spec_find(spec_delete(rows, id), id) is None,
        forall|i: int|
            0 <= i < spec_delete(rows, id).len() ==> #[trigger] spec_delete(rows, id)[i].id != id,
{
    let pred = |p: Person| p.id != id;
    let out = spec_delete(rows, id);
    assert forall|i: int| 0 <= i < out.len() implies #[trigger] out[i].id != id by {
        rows.lemma_filter_pred(pred, i);
    }
    lemma_find_none(out, id);
}

/// Membership in a search result: a record is in the result exactly when it
/// is a stored row and matches the query under the selector.
pub proof fn lemma_search_membership(rows: Seq<Person>, q: Seq<char>, f: Field, p: Person)
    ensures
        spec_search(rows, q, f).contains(p) <==> rows.contains(p) && person_matches(p, q, f),
{
    let pred = |x: Person| person_matches(x, q, f);
    let out = spec_search(rows, q, f);
    if out.contains(p) {
        let k = choose|k: int| 0 <= k < out.len() && out[k] == p;
        rows.lemma_filter_pred(pred, k);
        rows.lemma_filter_contains_rev(pred, p);
    }
    if rows.contains(p) && person_matches(p, q, f) {
        let i = choose|i: int| 0 <= i < rows.len() && rows[i] == p;
        rows.lemma_filter_contains(pred, i);
    }
}

/// Search field isolation: under the `name` selector, a record is returned
/// exactly when its `name` contains the query case-insensitively — a record
/// matching only in another field, such as `notes`, is excluded.
pub proof fn law_search_isolation(rows: Seq<Person>, q: Seq<char>, p: Person)
    ensures
        spec_search(rows, q, Field::Name).contains(p) <==> rows.contains(p) && contains_ci(
            p.name@,
            q,
        ),
{
    lemma_search_membership(rows, q, Field::Name, p);
}

/// Search-all fan-out: under the `all` selector, a record is returned
/// exactly when any of the nine searchable columns matches — including
/// `phone`, `tags` and `linkedin`, which no individual selector reaches.
pub proof fn law_all_fanout(rows: Seq<Person>, q: Seq<char>, p: Person)
    ensures
        spec_search(rows, q, Field::All).contains(p) <==> rows.contains(p) && (contains_ci(
            p.name@,
            q,
        ) || opt_matches(p.email, q) || opt_matches(p.company, q) || opt_matches(p.title, q)
            || opt_matches(p.location_met, q) || opt_matches(p.notes, q) || opt_matches(
            p.phone,
            q,
        ) || opt_matches(p.tags, q) || opt_matches(p.linkedin, q)),
{
    lemma_search_membership(rows, q, Field::All, p);
}

/// Unknown selector fallback: a selector that is none of the six recognized
/// field names resolves to the fan-out, so its search returns exactly the
/// result set of an `all` search.
pub proof fn law_unknown_selector(rows: Seq<Person>, q: Seq<char>, s: Seq<char>)
    requires
        s != "name"@,
        s != "email"@,
        s != "company"@,
        s != "title"@,
        s != "location"@,
        s != "notes"@,
    ensures
        spec_selector(s) == Field::All,
        spec_search(rows, q, spec_selector(s)) == spec_search(rows, q, Field::All),
{
}

/// A filter that keeps every row returns the rows unchanged.
proof fn lemma_filter_all_true(rows: Seq<Person>, pred: spec_fn(Person) -> bool)
    requires
        forall|i: int| 0 <= i < rows.len() ==> pred(#[trigger] rows[i]),
    ensures
        rows.filter(pred) == rows,
    decreases rows.len(),
{
    reveal(Seq::filter);
    if rows.len() > 0 {
        let dl = rows.drop_last();
        assert(forall|i: int| 0 <= i < dl.len() ==> pred(#[trigger] dl[i]));
        lemma_filter_all_true(dl, pred);
        assert(pred(rows.last()));
        assert(dl.push(rows.last()) =~= rows);
    }
}

/// Empty query: an `all` search with the empty query returns every stored
/// record — every record's `name` is present and contains the empty string.
pub proof fn law_empty_query(rows: Seq<Person>)
    ensures
        spec_search(rows, Seq::<char>::empty(), Field::All) == rows,
{
    let q = Seq::<char>::empty();
    let pred = |x: Person| person_matches(x, q, Field::All);
    assert forall|i: int| 0 <= i < rows.len() implies pred(#[trigger] rows[i]) by {
        lemma_empty_needle(rows[i].name@);
    }
    lemma_filter_all_true(rows, pred);
}

} // verus!
