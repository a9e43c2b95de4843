use people_store::person::NewPerson;
use people_store::store::{Store, StoreError};

fn blank(name: &str) -> NewPerson {
    NewPerson {
        name: name.to_string(),
        title: None,
        company: None,
        email: None,
        phone: None,
        tags: None,
        notes: None,
        date_met: None,
        location_met: None,
        linkedin: None,
    }
}

#[test]
fn round_trip_create_get() {
    let mut s = Store::new();
    let mut n = blank("Ada Lovelace");
    n.title = Some("Countess".to_string());
    n.notes = Some("met at the salon".to_string());
    let id = s.create(n.clone());
    assert_eq!(id, 1);
    let p = s.get(id).unwrap();
    assert_eq!(p.id, 1);
    assert_eq!(p.name, "Ada Lovelace");
    assert_eq!(p.title, Some("Countess".to_string()));
    assert_eq!(p.notes, Some("met at the salon".to_string()));
    assert_eq!(p.company, None);
    assert_eq!(p.email, None);
    assert_eq!(p.phone, None);
    assert_eq!(p.tags, None);
    assert_eq!(p.date_met, None);
    assert_eq!(p.location_met, None);
    assert_eq!(p.linkedin, None);
}

#[test]
fn update_overwrites_every_field() {
    let mut s = Store::new();
    let mut p1 = blank("Grace Hopper");
    p1.title = Some("Rear Admiral".to_string());
    p1.email = Some("grace@navy.example".to_string());
    let id = s.create(p1);
    let mut p2 = blank("Grace Murray Hopper");
    p2.company = Some("Eckert-Mauchly".to_string());
    let ok = s.update(id, p2);
    assert!(ok.is_ok());
    let p = s.get(id).unwrap();
    assert_eq!(p.id, id);
    assert_eq!(p.name, "Grace Murray Hopper");
    assert_eq!(p.company, Some("Eckert-Mauchly".to_string()));
    // no field of p1 survives: missing optional fields are cleared
    assert_eq!(p.title, None);
    assert_eq!(p.email, None);
}

#[test]
fn delete_removes_record() {
    let mut s = Store::new();
    let a = s.create(blank("Alan"));
    let b = s.create(blank("Betty"));
    assert!(s.delete(a).is_ok());
    assert!(matches!(s.get(a), Err(StoreError::NotFound)));
    let all = s.list_all();
    assert_eq!(all.len(), 1);
    assert!(all.iter().all(|p| p.id != a));
    assert_eq!(all[0].id, b);
}

#[test]
fn get_missing_id_is_not_found() {
    let s = Store::new();
    assert!(matches!(s.get(42), Err(StoreError::NotFound)));
}

#[test]
fn update_missing_id_is_silent_success() {
    let mut s = Store::new();
    s.create(blank("Alan"));
    let r = s.update(99, blank("Nobody"));
    assert!(r.is_ok());
    let all = s.list_all();
    assert_eq!(all.len(), 1);
    assert_eq!(all[0].name, "Alan");
}

#[test]
fn delete_missing_id_is_silent_success() {
    let mut s = Store::new();
    s.create(blank("Alan"));
    let r = s.delete(99);
    assert!(r.is_ok());
    assert_eq!(s.list_all().len(), 1);
}

#[test]
fn ids_are_monotonic_and_never_reused() {
    let mut s = Store::new();
    let a = s.create(blank("one"));
    let b = s.create(blank("two"));
    assert_eq!((a, b), (1, 2));
    assert!(s.delete(b).is_ok());
    let c = s.create(blank("three"));
    assert_eq!(c, 3);
}

#[test]
fn list_all_keeps_insertion_order() {
    let mut s = Store::new();
    s.create(blank("first"));
    s.create(blank("second"));
    s.create(blank("third"));
    let names: Vec<String> = s.list_all().into_iter().map(|p| p.name).collect();
    assert_eq!(names, vec!["first", "second", "third"]);
}

#[test]
fn concrete_scenario_ada() {
    let mut s = Store::new();
    let mut n = blank("Ada Lovelace");
    n.company = Some("Analytical Engines".to_string());
    n.email = None;
    let id = s.create(n);

    let by_name = s.search("ada", "name");
    assert_eq!(by_name.len(), 1);
    assert_eq!(by_name[0].id, id);
    assert_eq!(by_name[0].name, "Ada Lovelace");

    let by_company = s.search("engines", "company");
    assert_eq!(by_company.len(), 1);
    assert_eq!(by_company[0].id, id);

    let by_email = s.search("ada", "email");
    assert!(by_email.is_empty());
}
