//! The sole entity of the store: a person record.
//!
//! `name` is always present; every other text field is independently optional,
//! and an absent field is `None`, never conflated with an empty string.
//! `tags` is an unstructured text blob; the store neither parses nor splits it.

use vstd::prelude::*;

verus! {

/// A stored person record. The `id` is assigned by the store on creation and
/// is immutable thereafter.
#[derive(Debug, Clone, PartialEq)]
pub struct Person {
    pub id: i64,
    pub name: String,
    pub title: Option<String>,
    pub company: Option<String>,
    pub email: Option<String>,
    pub phone: Option<String>,
    pub tags: Option<String>,
    pub notes: Option<String>,
    pub date_met: Option<String>,
    pub location_met: Option<String>,
    pub linkedin: Option<String>,
}

/// The creation/update shape: a person without an id.
#[derive(Debug, Clone, PartialEq)]
pub struct NewPerson {
    pub name: String,
    pub title: Option<String>,
    pub company: Option<String>,
    pub email: Option<String>,
    pub phone: Option<String>,
    pub tags: Option<String>,
    pub notes: Option<String>,
    pub date_met: Option<String>,
    pub location_met: Option<String>,
    pub linkedin: Option<String>,
}

/// The record that results from attaching `id` to the fields of `n`:
/// every field is taken from `n` unchanged.
pub open spec fn with_id(n: NewPerson, id: i64) -> Person {
    Person {
        id: id,
        name: n.name,
        title: n.title,
        company: n.company,
        email: n.email,
        phone: n.phone,
        tags: n.tags,
        notes: n.notes,
        date_met: n.date_met,
        location_met: n.location_met,
        linkedin: n.linkedin,
    }
}

fn clone_text(o: &Option<String>) -> (r: Option<String>)
    ensures
        r == *o,
{
    match o {
        Some(s) => Some(s.clone()),
        None => None,
    }
}

impl NewPerson {
    /// Attach an id, producing the record the store keeps.
    pub fn into_person(self, id: i64) -> (p: Person)
        ensures
            p == with_id(self, id),
    {
        Person {
            id: id,
            name: self.name,
            title: self.title,
            company: self.company,
            email: self.email,
            phone: self.phone,
            tags: self.tags,
            notes: self.notes,
            date_met: self.date_met,
            location_met: self.location_met,
            linkedin: self.linkedin,
        }
    }
}

impl Person {
    /// An exact copy of this record.
    pub fn duplicate(&self) -> (p: Person)
        ensures
            p == *self,
    {
        Person {
            id: self.id,
            name: self.name.clone(),
            title: clone_text(&self.title),
            company: clone_text(&self.company),
            email: clone_text(&self.email),
            phone: clone_text(&self.phone),
            tags: clone_text(&self.tags),
            notes: clone_text(&self.notes),
            date_met: clone_text(&self.date_met),
            location_met: clone_text(&self.location_met),
            linkedin: clone_text(&self.linkedin),
        }
    }
}

} // verus!
