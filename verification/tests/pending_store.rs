use masked_mails::pending::{PendingAuth, PendingStore};

fn attempt(state: &str, nonce: &str, path: Option<&str>) -> PendingAuth {
    PendingAuth {
        csrf_state: state.to_string(),
        nonce: Some(nonce.to_string()),
        return_path: path.map(str::to_string),
    }
}

#[test]
fn new_store_is_empty() {
    let store = PendingStore::new();
    assert_eq!(store.len(), 0);
    assert!(!store.contains("S1"));
    assert!(store.entries().is_empty());
}

#[test]
fn take_returns_what_was_put() {
    let mut store = PendingStore::new();
    store.put("S1".to_string(), "N1".to_string(), Some("/addresses".to_string()));
    assert!(store.contains("S1"));
    assert_eq!(store.len(), 1);
    assert!(store.take("S1") == Some(attempt("S1", "N1", Some("/addresses"))));
    assert_eq!(store.len(), 0);
}

#[test]
fn take_is_single_use() {
    let mut store = PendingStore::new();
    store.put("S1".to_string(), "N1".to_string(), None);
    assert!(store.take("S1").is_some());
    assert!(store.take("S1") == None);
    assert!(store.take("S1") == None);
    assert!(!store.contains("S1"));
}

#[test]
fn take_of_unknown_state_changes_nothing() {
    let mut store = PendingStore::new();
    store.put("S1".to_string(), "N1".to_string(), None);
    assert!(store.take("S2") == None);
    assert!(store.take("") == None);
    assert!(store.take("S") == None);
    assert!(store.take("S11") == None);
    assert_eq!(store.len(), 1);
    assert!(store.take("S1") == Some(attempt("S1", "N1", None)));
}

#[test]
fn put_replaces_the_entry_under_the_same_state() {
    let mut store = PendingStore::new();
    store.put("S1".to_string(), "N1".to_string(), Some("/a".to_string()));
    store.put("S1".to_string(), "N2".to_string(), None);
    assert_eq!(store.len(), 1);
    assert!(store.take("S1") == Some(attempt("S1", "N2", None)));
    assert!(store.take("S1") == None);
}

#[test]
fn entries_are_independent() {
    let mut store = PendingStore::new();
    store.put("S1".to_string(), "N1".to_string(), None);
    store.put("S2".to_string(), "N2".to_string(), Some("/b".to_string()));
    store.put("S3".to_string(), "N3".to_string(), None);
    assert_eq!(store.len(), 3);
    assert!(store.take("S2") == Some(attempt("S2", "N2", Some("/b"))));
    assert_eq!(store.len(), 2);
    assert!(store.contains("S1"));
    assert!(!store.contains("S2"));
    assert!(store.contains("S3"));
    assert!(store.take("S3") == Some(attempt("S3", "N3", None)));
    assert!(store.take("S1") == Some(attempt("S1", "N1", None)));
    assert_eq!(store.len(), 0);
}

#[test]
fn entries_lists_each_attempt_once() {
    let mut store = PendingStore::new();
    store.put("S1".to_string(), "N1".to_string(), None);
    store.put("S2".to_string(), "N2".to_string(), Some("/b".to_string()));
    store.put("S1".to_string(), "N3".to_string(), None);
    assert!(store.entries() == vec![attempt("S1", "N3", None), attempt("S2", "N2", Some("/b"))]);
}

#[test]
fn columns_round_trip() {
    let mut store = PendingStore::new();
    store.put("S1".to_string(), "N1".to_string(), None);
    store.put("S2".to_string(), "N2".to_string(), Some("/b".to_string()));
    let (states, nonces, paths) = store.columns();
    assert_eq!(states, vec!["S1".to_string(), "S2".to_string()]);
    assert_eq!(nonces, vec![Some("N1".to_string()), Some("N2".to_string())]);
    assert_eq!(paths, vec![None, Some("/b".to_string())]);
    let restored = PendingStore::restore(&states, &nonces, &paths);
    assert!(restored.entries() == store.entries());
    assert_eq!(PendingStore::new().columns(), (vec![], vec![], vec![]));
}

#[test]
fn restore_keeps_entries_without_nonce() {
    let states = vec!["S1".to_string(), "S2".to_string(), "S3".to_string()];
    let nonces = vec![Some("N1".to_string()), None];
    let paths = vec![Some("/a".to_string())];
    let mut store = PendingStore::restore(&states, &nonces, &paths);
    let lost = |state: &str| PendingAuth {
        csrf_state: state.to_string(),
        nonce: None,
        return_path: None,
    };
    assert!(store.entries() == vec![attempt("S1", "N1", Some("/a")), lost("S2"), lost("S3")]);
    assert!(store.lacks_nonce());
    assert_eq!(
        store.columns(),
        (states.clone(), vec![Some("N1".to_string()), None, None], vec![Some("/a".to_string()), None, None])
    );
    assert!(store.take("S2") == Some(lost("S2")));
    assert!(store.take("S3") == Some(lost("S3")));
    assert!(!store.lacks_nonce());
    let bare = PendingStore::restore(&states, &vec![], &vec![]);
    assert_eq!(bare.len(), 3);
    assert!(bare.lacks_nonce());
    assert!(!PendingStore::new().lacks_nonce());
    assert_eq!(PendingStore::restore(&vec![], &nonces, &paths).len(), 0);
}

#[test]
fn restore_lets_the_later_row_win() {
    let states = vec!["S1".to_string(), "S2".to_string(), "S1".to_string()];
    let nonces =
        vec![Some("N1".to_string()), Some("N2".to_string()), Some("N3".to_string())];
    let paths = vec![Some("/a".to_string()), None, None];
    let store = PendingStore::restore(&states, &nonces, &paths);
    assert!(store.entries() == vec![attempt("S1", "N3", None), attempt("S2", "N2", None)]);
}

#[test]
fn pending_auth_clone_keeps_every_field() {
    let entry = attempt("S1", "N1", Some("/a"));
    assert!(entry.clone() == entry);
}
