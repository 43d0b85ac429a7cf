use wtbridge::bridge::admit_session;
use wtbridge::origin::is_origin_allowed;

fn allowed(allow: Option<&str>, origin: &str) -> bool {
    let a = allow.map(|s| s.as_bytes().to_vec());
    is_origin_allowed(&a, &origin.as_bytes().to_vec())
}

#[test]
fn unset_allow_list_admits_everything() {
    assert!(allowed(None, "https://anything.example"));
    assert!(allowed(None, ""));
    assert!(allowed(None, "not-even-a-url"));
}

#[test]
fn star_admits_everything() {
    assert!(allowed(Some("*"), "https://anything.example"));
    assert!(allowed(Some("*"), "http://insecure.example"));
    assert!(allowed(Some("*"), ""));
}

#[test]
fn star_as_one_entry_of_many_is_exact() {
    // `*` only admits everything as the whole list; as one entry among
    // several it matches only the literal origin `*`.
    assert!(!allowed(Some("https://a.example,*"), "https://b.example"));
    assert!(allowed(Some("https://a.example,*"), "*"));
}

#[test]
fn exact_entry_admits_only_identical_origin() {
    assert!(allowed(Some("https://app.example.com"), "https://app.example.com"));
    assert!(!allowed(Some("https://app.example.com"), "https://app.example.com/"));
    assert!(!allowed(Some("https://app.example.com"), "https://App.example.com"));
    assert!(!allowed(Some("https://app.example.com"), "app.example.com"));
}

#[test]
fn wildcard_entry_checks_scheme_and_suffix() {
    assert!(allowed(Some("https://*.example.com"), "https://a.example.com"));
    assert!(allowed(Some("https://*.example.com"), "https://deep.sub.example.com"));
    assert!(!allowed(Some("https://*.example.com"), "http://a.example.com"));
    assert!(!allowed(Some("https://*.example.com"), "https://a.example.org"));
}

#[test]
fn wildcard_suffix_match_is_coarse() {
    // The wildcard is a plain suffix match with no label boundary: a suffix
    // `example.com` also admits `notexample.com`.
    assert!(allowed(Some("https://*.example.com"), "https://notexample.com"));
}

#[test]
fn comma_separated_entries_are_tried_in_turn() {
    let list = Some("https://one.example,https://*.two.example,https://three.example");
    assert!(allowed(list, "https://one.example"));
    assert!(allowed(list, "https://x.two.example"));
    assert!(allowed(list, "https://three.example"));
    assert!(!allowed(list, "https://four.example"));
}

#[test]
fn empty_allow_list_string_admits_only_empty_origin() {
    assert!(allowed(Some(""), ""));
    assert!(!allowed(Some(""), "https://a.example"));
}

#[test]
fn missing_origin_is_always_denied() {
    let no_origin: Option<Vec<u8>> = None;
    assert!(!admit_session(&None, &no_origin));
    assert!(!admit_session(&Some(b"*".to_vec()), &no_origin));
    let some_origin = Some(b"https://a.example".to_vec());
    assert!(admit_session(&None, &some_origin));
}
