use masked_mails::session::Session;
use masked_mails::user::User;

fn visitor(id: i32, token: &str) -> User {
    User { id, email: "a@example.com".to_string(), access_token: token.to_string() }
}

#[test]
fn new_session_is_anonymous() {
    let mut session = Session::new();
    assert_eq!(session.user_id(), None);
    assert!(!session.has_pending());
    assert!(session.binding().is_none());
    assert!(session.authorize(Some(visitor(1, "t"))).is_none());
    assert!(session.authorize(None).is_none());
}

#[test]
fn login_binds_the_user() {
    let mut session = Session::new();
    let user = visitor(1, "token-1");
    session.login(&user);
    assert_eq!(session.user_id(), Some(1));
    assert_eq!(session.binding(), Some((1, "token-1".as_bytes())));
    assert!(session.authorize(Some(user.clone())) == Some(user));
    assert_eq!(session.user_id(), Some(1));
}

#[test]
fn logout_then_check_is_unauthenticated() {
    let mut session = Session::new();
    let user = visitor(1, "token-1");
    session.begin("S9".to_string(), "N9".to_string(), None);
    session.login(&user);
    session.logout();
    assert_eq!(session.user_id(), None);
    assert!(session.authorize(Some(user)).is_none());
    assert!(!session.has_pending());
    assert!(session.take("S9").is_none());
}

#[test]
fn rotated_token_invalidates_the_session() {
    let mut session = Session::new();
    session.login(&visitor(1, "token-1"));
    assert!(session.authorize(Some(visitor(1, "token-2"))).is_none());
    assert_eq!(session.user_id(), None);
    // Even the old token no longer helps: the binding is gone.
    assert!(session.authorize(Some(visitor(1, "token-1"))).is_none());
}

#[test]
fn vanished_user_is_not_admitted() {
    let mut session = Session::new();
    session.login(&visitor(1, "token-1"));
    assert!(session.authorize(None).is_none());
    assert_eq!(session.user_id(), Some(1));
    assert!(session.authorize(Some(visitor(1, "token-1"))).is_some());
}

#[test]
fn another_user_is_not_admitted() {
    let mut session = Session::new();
    session.login(&visitor(1, "token-1"));
    assert!(session.authorize(Some(visitor(2, "token-1"))).is_none());
    assert_eq!(session.user_id(), None);
}

#[test]
fn pending_logins_survive_login() {
    let mut session = Session::new();
    session.begin("S1".to_string(), "N1".to_string(), Some("/a".to_string()));
    assert!(session.has_pending());
    session.login(&visitor(1, "token-1"));
    assert_eq!(session.pending().len(), 1);
    let taken = session.take("S1").unwrap();
    assert_eq!(taken.nonce, Some("N1".to_string()));
    assert_eq!(session.user_id(), Some(1));
    assert!(session.take("S1").is_none());
}

#[test]
fn a_new_attempt_takes_the_place_of_the_old_one() {
    let mut session = Session::new();
    session.begin("S0".to_string(), "N0".to_string(), Some("/old".to_string()));
    session.begin("S1".to_string(), "N1".to_string(), None);
    assert_eq!(session.pending().len(), 1);
    assert!(session.take("S0").is_none());
    let taken = session.take("S1").unwrap();
    assert_eq!(taken.nonce, Some("N1".to_string()));
    assert_eq!(taken.return_path, None);
    assert!(!session.has_pending());
}

#[test]
fn restore_brings_back_what_was_stored() {
    let mut first = Session::new();
    first.begin("S1".to_string(), "N1".to_string(), None);
    first.login(&visitor(3, "token-3"));
    let (states, nonces, paths) = first.pending().columns();
    let pending = masked_mails::pending::PendingStore::restore(&states, &nonces, &paths);
    let bound = first.binding().map(|(id, signal)| (id, signal.to_vec()));
    let mut restored = Session::restore(pending, bound);
    assert_eq!(restored.user_id(), Some(3));
    assert!(restored.authorize(Some(visitor(3, "token-3"))).is_some());
    assert_eq!(restored.take("S1").unwrap().nonce, Some("N1".to_string()));
}

#[test]
fn session_auth_hash_is_the_access_token() {
    let user = visitor(1, "tökén");
    assert_eq!(user.session_auth_hash(), "tökén".as_bytes());
    assert_eq!(user.id(), 1);
}
