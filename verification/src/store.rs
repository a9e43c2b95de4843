//! The record store: list, get, search, create, update, delete over person
//! records.
//!
//! The store owns its records exclusively. Every stored record has a unique
//! id, assigned on creation from a counter that starts at 1 and only grows,
//! so an id is never reused, not even after a deletion. `update` and `delete`
//! against an id that is not present succeed as no-ops; only `get`
//! distinguishes the missing-id case, as `NotFound`.

use vstd::prelude::*;
use crate::person::{Person, NewPerson, with_id};
use crate::search::{Field, SearchQuery, spec_selector, parse_selector, person_matches,
    record_matches};

verus! {

/// How a store operation fails. A lookup by id that finds nothing is
/// `NotFound`; any underlying storage-engine failure is `Storage` with the
/// engine's message; a failure to establish the schema at startup is
/// `Schema`. The in-memory store itself only ever reports `NotFound`.
#[derive(Debug, Clone, PartialEq)]
pub enum StoreError {
    NotFound,
    Storage(String),
    Schema(String),
}

/// No two rows carry the same id.
pub open spec fn unique_ids(rows: Seq<Person>) -> bool {
    forall|i: int, j: int| 0 <= i < j < rows.len() ==> rows[i].id != rows[j].id
}

/// Every row's id is at least 1 and below `bound`.
pub open spec fn ids_below(rows: Seq<Person>, bound: i64) -> bool {
    forall|i: int| 0 <= i < rows.len() ==> 1 <= #[trigger] rows[i].id && rows[i].id < bound
}

/// The first row with the given id, if any.
pub open spec fn spec_find(rows: Seq<Person>, id: i64) -> Option<Person>
    decreases rows.len(),
{
    if rows.len() == 0 {
        None
    } else if rows[0].id == id {
        Some(rows[0])
    } else {
        spec_find(rows.drop_first(), id)
    }
}

/// Full-overwrite update: every row carrying `id` is replaced by the fields
/// of `n` (under the same id); every other row is untouched.
pub open spec fn spec_update(rows: Seq<Person>, id: i64, n: NewPerson) -> Seq<Person> {
    rows.map_values(|p: Person| if p.id == id { with_id(n, id) } else { p })
}

/// Hard delete: the rows that do not carry `id`, in their original order.
pub open spec fn spec_delete(rows: Seq<Person>, id: i64) -> Seq<Person> {
    rows.filter(|p: Person| p.id != id)
}

/// The rows matching the query under the selector, in their original order.
pub open spec fn spec_search(rows: Seq<Person>, q: Seq<char>, f: Field) -> Seq<Person> {
    rows.filter(|p: Person| person_matches(p, q, f))
}

/// If no row carries the id, the search for it finds nothing.
pub proof fn lemma_find_none(rows: Seq<Person>, id: i64)
    requires
        forall|i: int| 0 <= i < rows.len() ==> #[trigger] rows[i].id != id,
    ensures
        spec_find(rows, id) is None,
    decreases rows.len(),
{
    if rows.len() > 0 {
        assert(forall|i: int| 0 <= i < rows.drop_first().len()
            ==> #[trigger] rows.drop_first()[i].id != id);
        lemma_find_none(rows.drop_first(), id);
    }
}

/// If row `i` carries the id and no earlier row does, the search finds
/// exactly row `i`.
pub proof fn lemma_find_first(rows: Seq<Person>, id: i64, i: int)
    requires
        0 <= i < rows.len(),
        rows[i].id == id,
        forall|j: int| 0 <= j < i ==> #[trigger] rows[j].id != id,
    ensures
        spec_find(rows, id) == Some(rows[i]),
    decreases i,
{
    if i > 0 {
        assert(forall|j: int| 0 <= j < i - 1 ==> #[trigger] rows.drop_first()[j].id != id);
        lemma_find_first(rows.drop_first(), id, i - 1);
    }
}

/// Filtering keeps id uniqueness and id bounds: the kept rows are rows of
/// the original sequence.
pub proof fn lemma_filter_wf(rows: Seq<Person>, pred: spec_fn(Person) -> bool, bound: i64)
    requires
        unique_ids(rows),
        ids_below(rows, bound),
    ensures
        unique_ids(rows.filter(pred)),
        ids_below(rows.filter(pred), bound),
    decreases rows.len(),
{
    reveal(Seq::filter);
    if rows.len() > 0 {
        let dl = rows.drop_last();
        let last = rows.last();
        assert(unique_ids(dl));
        assert(ids_below(dl, bound));
        lemma_filter_wf(dl, pred, bound);
        if pred(last) {
            let out = dl.filter(pred).push(last);
            assert(rows.filter(pred) == out);
            assert forall|k: int| 0 <= k < dl.filter(pred).len()
                implies #[trigger] dl.filter(pred)[k].id != last.id by {
                let elem = dl.filter(pred)[k];
                assert(dl.filter(pred).contains(elem));
                dl.lemma_filter_contains_rev(pred, elem);
                let m = choose|m: int| 0 <= m < dl.len() && dl[m] == elem;
                assert(rows[m] == elem);
                assert(rows[rows.len() - 1] == last);
            }
            assert forall|i: int, j: int| 0 <= i < j < out.len()
                implies out[i].id != out[j].id by {
                if j < out.len() - 1 {
                    assert(out[i] == dl.filter(pred)[i]);
                    assert(out[j] == dl.filter(pred)[j]);
                }
            }
            assert forall|i: int| 0 <= i < out.len()
                implies 1 <= #[trigger] out[i].id && out[i].id < bound by {
                if i < out.len() - 1 {
                    assert(out[i] == dl.filter(pred)[i]);
                } else {
                    assert(out[i] == last);
                    assert(rows[rows.len() - 1] == last);
                }
            }
        } else {
            assert(rows.filter(pred) == dl.filter(pred));
        }
    }
}

/// One filtering step: extending the prefix by row `i` extends the filtered
/// prefix by that row exactly when the predicate accepts it.
pub proof fn lemma_filter_extend(rows: Seq<Person>, pred: spec_fn(Person) -> bool, i: int)
    requires
        0 <= i < rows.len(),
    ensures
        rows.subrange(0, i + 1).filter(pred) == if pred(rows[i]) {
            rows.subrange(0, i).filter(pred).push(rows[i])
        } else {
            rows.subrange(0, i).filter(pred)
        },
{
    let prefix = rows.subrange(0, i);
    let single = seq![rows[i]];
    assert(rows.subrange(0, i + 1) =~= prefix + single);
    Seq::filter_distributes_over_add(prefix, single, pred);
    reveal_with_fuel(Seq::filter, 2);
    assert(single.drop_last() =~= Seq::<Person>::empty());
    if pred(rows[i]) {
        assert(single.filter(pred) =~= seq![rows[i]]);
        assert(prefix.filter(pred) + seq![rows[i]] =~= prefix.filter(pred).push(rows[i]));
    } else {
        assert(single.filter(pred) =~= Seq::<Person>::empty());
        assert(prefix.filter(pred) + single.filter(pred) =~= prefix.filter(pred));
    }
}

/// The record store. A single value of this type exclusively owns all
/// person records; `next_id` is the id the next created record will get.
pub struct Store {
    pub people: Vec<Person>,
    pub next_id: i64,
}

impl Store {
    /// Well-formedness: ids are unique, at least 1, and below the counter,
    /// which itself is at least 1.
    pub open spec fn wf(self) -> bool {
        &&& 1 <= self.next_id
        &&& unique_ids(self.people@)
        &&& ids_below(self.people@, self.next_id)
    }

    /// An empty store; the first created record will get id 1.
    pub fn new() -> (s: Store)
        ensures
            s.wf(),
            s.people@ == Seq::<Person>::empty(),
            s.next_id == 1,
    {
        Store { people: Vec::new(), next_id: 1 }
    }

    fn find_index(&self, id: i64) -> (r: Option<usize>)
        ensures
            match r {
                Some(i) => i < self.people@.len() && self.people@[i as int].id == id
                    && (forall|j: int| 0 <= j < i ==> #[trigger] self.people@[j].id != id),
                None => forall|j: int|
                    0 <= j < self.people@.len() ==> #[trigger] self.people@[j].id != id,
            },
    {
        let mut i: usize = 0;
        while i < self.people.len()
            invariant
                0 <= i <= self.people@.len(),
                forall|j: int| 0 <= j < i ==> #[trigger] self.people@[j].id != id,
            decreases self.people@.len() - i,
        {
            if self.people[i].id == id {
                return Some(i);
            }
            i = i + 1;
        }
        None
    }

    /// Every record, in storage order.
    pub fn list_all(&self) -> (r: Vec<Person>)
        ensures
            r@ == self.people@,
    {
        let mut out: Vec<Person> = Vec::new();
        let mut i: usize = 0;
        while i < self.people.len()
            invariant
                0 <= i <= self.people@.len(),
                out@ == self.people@.subrange(0, i as int),
            decreases self.people@.len() - i,
        {
            out.push(self.people[i].duplicate());
            proof {
                assert(out@ =~= self.people@.subrange(0, i + 1 as int));
            }
            i = i + 1;
        }
        proof {
            assert(self.people@.subrange(0, self.people@.len() as int) =~= self.people@);
        }
        out
    }

    /// The record with the given id, or `NotFound` if no record has it.
    pub fn get(&self, id: i64) -> (r: Result<Person, StoreError>)
        ensures
            match r {
                Ok(p) => spec_find(self.people@, id) == Some(p),
                Err(e) => spec_find(self.people@, id) is None && e == StoreError::NotFound,
            },
    {
        match self.find_index(id) {
            Some(i) => {
                proof {
                    lemma_find_first(self.people@, id, i as int);
                }
                Ok(self.people[i].duplicate())
            },
            None => {
                proof {
                    lemma_find_none(self.people@, id);
                }
                Err(StoreError::NotFound)
            },
        }
    }

    /// Create a record from `n`: it is appended with the next id, and the
    /// counter advances, so ids are monotonically increasing per store.
    pub fn create(&mut self, n: NewPerson) -> (id: i64)
        requires
            old(self).wf(),
            old(self).next_id < i64::MAX,
        ensures
            final(self).wf(),
            id == old(self).next_id,
            final(self).next_id == old(self).next_id + 1,
            final(self).people@ == old(self).people@.push(with_id(n, id)),
    {
        let id = self.next_id;
        let p = n.into_person(id);
        self.people.push(p);
        self.next_id = self.next_id + 1;
        id
    }

    /// Full overwrite of the record carrying `id`; a no-op reported as
    /// success when no record carries it.
    pub fn update(&mut self, id: i64, n: NewPerson) -> (r: Result<(), StoreError>)
        requires
            old(self).wf(),
        ensures
            r is Ok,
            final(self).wf(),
            final(self).next_id == old(self).next_id,
            final(self).people@ == spec_update(old(self).people@, id, n),
    {
        let ghost orig = self.people@;
        match self.find_index(id) {
            Some(i) => {
                let p = n.into_person(id);
                self.people.remove(i);
                self.people.insert(i, p);
                proof {
                    assert forall|j: int| 0 <= j < orig.len() && j != i
                        implies #[trigger] orig[j].id != id by {
                        if j > i {
                            assert(orig[i as int].id == id);
                        }
                    }
                    assert(self.people@ =~= spec_update(orig, id, n));
                }
            },
            None => {
                proof {
                    assert(self.people@ =~= spec_update(orig, id, n));
                }
            },
        }
        proof {
            assert forall|j: int| 0 <= j < self.people@.len()
                implies #[trigger] self.people@[j].id == orig[j].id by {}
        }
        Ok(())
    }

    /// Hard delete of the record carrying `id`; a no-op reported as success
    /// when no record carries it. The counter does not move back: the id of
    /// a deleted record never recurs.
    pub fn delete(&mut self, id: i64) -> (r: Result<(), StoreError>)
        requires
            old(self).wf(),
        ensures
            r is Ok,
            final(self).wf(),
            final(self).next_id == old(self).next_id,
            final(self).people@ == spec_delete(old(self).people@, id),
    {
        let ghost pred = |p: Person| p.id != id;
        let mut out: Vec<Person> = Vec::new();
        let mut i: usize = 0;
        while i < self.people.len()
            invariant
                0 <= i <= self.people@.len(),
                out@ == self.people@.subrange(0, i as int).filter(pred),
                pred == (|p: Person| p.id != id),
            decreases self.people@.len() - i,
        {
            if self.people[i].id != id {
                out.push(self.people[i].duplicate());
            }
            proof {
                lemma_filter_extend(self.people@, pred, i as int);
            }
            i = i + 1;
        }
        proof {
            assert(self.people@.subrange(0, self.people@.len() as int) =~= self.people@);
            lemma_filter_wf(self.people@, pred, self.next_id);
        }
        self.people = out;
        Ok(())
    }

    /// The records matching the query under the selector, in storage order.
    /// An unrecognized selector searches all nine searchable columns.
    pub fn search(&self, query: &str, field: &str) -> (r: Vec<Person>)
        ensures
            r@ == spec_search(self.people@, query@, spec_selector(field@)),
    {
        let f = parse_selector(field);
        let ghost pred = |p: Person| person_matches(p, query@, f);
        let mut out: Vec<Person> = Vec::new();
        let mut i: usize = 0;
        while i < self.people.len()
            invariant
                0 <= i <= self.people@.len(),
                out@ == self.people@.subrange(0, i as int).filter(pred),
                pred == (|p: Person| person_matches(p, query@, f)),
                f == spec_selector(field@),
            decreases self.people@.len() - i,
        {
            if record_matches(&self.people[i], query, f) {
                out.push(self.people[i].duplicate());
            }
            proof {
                lemma_filter_extend(self.people@, pred, i as int);
            }
            i = i + 1;
        }
        proof {
            assert(self.people@.subrange(0, self.people@.len() as int) =~= self.people@);
        }
        out
    }

    /// Run a search request as given by a caller: its query under its
    /// field selector.
    pub fn search_by(&self, sq: &SearchQuery) -> (r: Vec<Person>)
        ensures
            r@ == spec_search(self.people@, sq.query@, spec_selector(sq.field@)),
    {
        self.search(sq.query.as_str(), sq.field.as_str())
    }
}

} // verus!
