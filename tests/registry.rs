use markdown_vault::error::StoreError;
use markdown_vault::registry::{open_registry, validate_user_name, Registry};

#[test]
fn registering_twice_keeps_one_user() {
    let mut reg = Registry::new();
    assert_eq!(reg.register_user("alice"), Ok(true));
    assert_eq!(reg.user_names().len(), 1);
    assert_eq!(reg.register_user("alice"), Ok(false));
    assert_eq!(reg.user_names(), vec!["alice".to_string()]);
}

#[test]
fn empty_user_name_is_refused_and_changes_nothing() {
    let mut reg = Registry::new();
    reg.register_user("bob").unwrap();
    let before = reg.to_json();
    match reg.register_user("") {
        Err(StoreError::Validation(m)) => assert_eq!(m, "User name cannot be empty."),
        other => panic!("unexpected {:?}", other),
    }
    assert_eq!(reg.to_json(), before);
    assert!(validate_user_name("").is_err());
    assert_eq!(validate_user_name("x"), Ok(()));
}

#[test]
fn fresh_store_has_no_users_and_writes_empty_document() {
    let (reg, fresh) = open_registry(None).unwrap();
    assert!(reg.user_names().is_empty());
    assert_eq!(fresh, Some("{\"users\":{}}".to_string()));
}

#[test]
fn existing_registry_text_is_read_back() {
    let (reg, fresh) = open_registry(Some("{\"users\":{\"ann\":[\"n1\"]}}")).unwrap();
    assert_eq!(fresh, None);
    assert_eq!(reg.user_names(), vec!["ann".to_string()]);
    assert_eq!(reg.documents("ann"), Some(vec!["n1".to_string()]));
    assert_eq!(reg.documents("zed"), None);
}

#[test]
fn registry_serialises_users_and_documents() {
    let mut reg = Registry::new();
    reg.register_user("alice").unwrap();
    reg.append_document("alice", "a").unwrap();
    reg.append_document("alice", "b").unwrap();
    assert_eq!(reg.to_json(), "{\"users\":{\"alice\":[\"a\",\"b\"]}}");
}

#[test]
fn saving_a_name_twice_records_it_twice() {
    let mut reg = Registry::new();
    reg.register_user("u").unwrap();
    reg.append_document("u", "a").unwrap();
    reg.append_document("u", "a").unwrap();
    assert_eq!(reg.documents("u"), Some(vec!["a".to_string(), "a".to_string()]));
}

#[test]
fn appending_for_unknown_user_fails() {
    let mut reg = Registry::new();
    reg.register_user("u").unwrap();
    let before = reg.to_json();
    match reg.append_document("v", "a") {
        Err(StoreError::NotFound(_)) => {}
        other => panic!("unexpected {:?}", other),
    }
    assert_eq!(reg.to_json(), before);
}

#[test]
fn json_round_trip_keeps_registry() {
    let mut reg = Registry::new();
    reg.register_user("zoe").unwrap();
    reg.register_user("adam").unwrap();
    reg.append_document("zoe", "diary").unwrap();
    let text = reg.to_json();
    let back = Registry::from_json(&text).unwrap();
    assert_eq!(back.to_json(), text);
    let mut names = back.user_names();
    names.sort();
    assert_eq!(names, vec!["adam".to_string(), "zoe".to_string()]);
    assert_eq!(back.documents("zoe"), Some(vec!["diary".to_string()]));
    assert!(back.contains_user("adam"));
    assert!(!back.contains_user("eve"));
}

#[test]
fn malformed_registry_is_a_parse_error() {
    assert!(matches!(Registry::from_json("{\"users\":"), Err(StoreError::Parse(_))));
    assert!(matches!(open_registry(Some("not json")), Err(StoreError::Parse(_))));
}

#[test]
fn registry_without_users_member_is_a_parse_error() {
    assert!(matches!(Registry::from_json("{}"), Err(StoreError::Parse(_))));
    assert!(matches!(Registry::from_json("{\"people\":{}}"), Err(StoreError::Parse(_))));
}

#[test]
fn error_messages_are_surfaced() {
    assert_eq!(StoreError::Io("disk full".to_string()).message(), "disk full");
    assert_eq!(StoreError::Parse("bad".to_string()).message(), "bad");
}
