use people_store::person::NewPerson;
use people_store::search::{Field, SearchQuery, parse_selector};
use people_store::store::Store;

fn blank(name: &str) -> NewPerson {
    NewPerson {
        name: name.to_string(),
        title: None,
        company: None,
        email: None,
        phone: None,
        tags: None,
        notes: None,
        date_met: None,
        location_met: None,
        linkedin: None,
    }
}

#[test]
fn selector_parsing() {
    assert_eq!(parse_selector("name"), Field::Name);
    assert_eq!(parse_selector("email"), Field::Email);
    assert_eq!(parse_selector("company"), Field::Company);
    assert_eq!(parse_selector("title"), Field::Title);
    assert_eq!(parse_selector("location"), Field::Location);
    assert_eq!(parse_selector("notes"), Field::Notes);
    assert_eq!(parse_selector("all"), Field::All);
    assert_eq!(parse_selector("bogus"), Field::All);
    assert_eq!(parse_selector(""), Field::All);
    assert_eq!(parse_selector("Name"), Field::All);
    assert_eq!(parse_selector("phone"), Field::All);
}

#[test]
fn search_is_case_insensitive() {
    let mut s = Store::new();
    s.create(blank("Ada Lovelace"));
    assert_eq!(s.search("ADA", "name").len(), 1);
    assert_eq!(s.search("aDa LOVE", "name").len(), 1);
    assert_eq!(s.search("lovelace", "name").len(), 1);
    assert_eq!(s.search("babbage", "name").len(), 0);
}

#[test]
fn search_field_isolation() {
    let mut s = Store::new();
    let mut in_notes = blank("Charles");
    in_notes.notes = Some("knows x very well".to_string());
    s.create(in_notes);
    let mut in_name = blank("Felix");
    in_name.notes = None;
    let id = s.create(in_name);

    // a record with "x" only in notes is excluded from a name search
    let by_name = s.search("x", "name");
    assert_eq!(by_name.len(), 1);
    assert_eq!(by_name[0].id, id);

    let by_notes = s.search("x", "notes");
    assert_eq!(by_notes.len(), 1);
    assert_eq!(by_notes[0].name, "Charles");
}

#[test]
fn search_all_fans_out_over_nine_columns() {
    let mut s = Store::new();
    let mut by_phone = blank("a");
    by_phone.phone = Some("+44 20 7946 0xyz".to_string());
    s.create(by_phone);
    let mut by_tags = blank("b");
    by_tags.tags = Some("xyz, mentor".to_string());
    s.create(by_tags);
    let mut by_linkedin = blank("c");
    by_linkedin.linkedin = Some("linkedin.example/in/xyz".to_string());
    s.create(by_linkedin);
    s.create(blank("unrelated"));

    let hits = s.search("xyz", "all");
    let mut names: Vec<String> = hits.into_iter().map(|p| p.name).collect();
    names.sort();
    assert_eq!(names, vec!["a", "b", "c"]);

    // "phone" is not a recognized selector: it falls back to the fan-out
    // rather than reaching the phone column alone
    assert_eq!(s.search("xyz", "phone").len(), 3);
}

#[test]
fn unknown_selector_behaves_like_all() {
    let mut s = Store::new();
    let mut n = blank("Dorothy");
    n.email = Some("dot@example.org".to_string());
    s.create(n);
    s.create(blank("Edith"));

    let via_all = s.search("dot", "all");
    let via_bogus = s.search("dot", "bogus");
    assert_eq!(via_all, via_bogus);
    assert_eq!(via_all.len(), 1);
}

#[test]
fn empty_query_all_returns_everything() {
    let mut s = Store::new();
    s.create(blank("one"));
    s.create(blank("two"));
    s.create(blank("three"));
    let hits = s.search("", "all");
    assert_eq!(hits, s.list_all());
}

#[test]
fn null_field_never_matches_even_empty_query() {
    let mut s = Store::new();
    let mut with_email = blank("has-email");
    with_email.email = Some(String::new());
    let id = s.create(with_email);
    s.create(blank("no-email"));

    // absence is not a substring of anything; an empty string is
    let hits = s.search("", "email");
    assert_eq!(hits.len(), 1);
    assert_eq!(hits[0].id, id);
}

#[test]
fn folding_is_ascii_only() {
    let mut s = Store::new();
    s.create(blank("Łukasz"));
    // the uppercase non-ASCII initial is not folded, so the all-lowercase
    // query misses it while the exact-case query matches
    assert_eq!(s.search("Łukasz", "name").len(), 1);
    assert_eq!(s.search("łukasz", "name").len(), 0);
    assert_eq!(s.search("UKASZ", "name").len(), 1);
}

#[test]
fn search_by_runs_the_request_as_given() {
    let mut s = Store::new();
    let mut n = blank("Hedy");
    n.title = Some("Inventor".to_string());
    s.create(n);
    s.create(blank("Kay"));

    let sq = SearchQuery { query: "invent".to_string(), field: "title".to_string() };
    let hits = s.search_by(&sq);
    assert_eq!(hits.len(), 1);
    assert_eq!(hits[0].name, "Hedy");
    assert_eq!(hits, s.search("invent", "title"));
}

#[test]
fn matches_keep_storage_order_without_dedup() {
    let mut s = Store::new();
    let mut m1 = blank("match one");
    m1.notes = Some("shared-term".to_string());
    s.create(m1);
    s.create(blank("no hit"));
    let mut m2 = blank("match two");
    m2.tags = Some("shared-term".to_string());
    s.create(m2);

    let hits = s.search("shared-term", "all");
    let names: Vec<String> = hits.into_iter().map(|p| p.name).collect();
    assert_eq!(names, vec!["match one", "match two"]);
}
