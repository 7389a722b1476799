use std::str::FromStr;

use masked_mails::auth::{
    conclude, get_user, judge, AuthStep, Authenticator, BackendError, Claims, Credentials,
    TokenFacts, TokenSet,
};
use masked_mails::config::AuthConfig;
use masked_mails::directory::UserDirectory;
use masked_mails::error::Error;
use masked_mails::routes::{
    callback, identity, login, userinfo, welcome, AuthResponse, CallbackStep, NextUrl, Reply,
};
use masked_mails::session::Session;
use masked_mails::user::User;
use openidconnect::AccessToken;

const METADATA: &str = r#"{
    "issuer": "https://id.example.com",
    "authorization_endpoint": "https://id.example.com/authorize",
    "token_endpoint": "https://id.example.com/token",
    "jwks_uri": "https://id.example.com/jwks",
    "response_types_supported": ["code"],
    "subject_types_supported": ["public"],
    "id_token_signing_alg_values_supported": ["HS256"]
}"#;

const KEYS: &str = r#"{"keys": []}"#;

const SECRET: &str = "a-client-secret-of-reasonable-length";

fn flow_config() -> AuthConfig {
    AuthConfig {
        issuer_url: "https://id.example.com".to_string(),
        client_id: "masked-mails".to_string(),
        client_secret: SECRET.to_string(),
        redirect_url: "https://mail.example.com/api/auth/callback".to_string(),
    }
}

fn flow_authenticator() -> Authenticator {
    match Authenticator::discover(flow_config(), METADATA.to_string(), KEYS.to_string()) {
        Ok(authenticator) => authenticator,
        Err(error) => panic!("discovery failed: {}", error.message()),
    }
}

/// An ID token as the simulated provider issues it, signed with the client
/// secret.
fn issue_id_token(claims_json: &str, secret: &str, access_token: Option<&str>) -> String {
    let claims: openidconnect::core::CoreIdTokenClaims = serde_json::from_str(claims_json).unwrap();
    let access_token = access_token.map(|t| AccessToken::new(t.to_string()));
    let token = openidconnect::core::CoreIdToken::new(
        claims,
        &openidconnect::core::CoreHmacKey::new(secret.as_bytes().to_vec()),
        openidconnect::core::CoreJwsSigningAlgorithm::HmacSha256,
        access_token.as_ref(),
        None,
    )
    .unwrap();
    token.to_string()
}

fn claims_json(nonce: &str, email: Option<&str>, expires: u64) -> String {
    let email = match email {
        Some(email) => format!(r#""email": "{}","#, email),
        None => String::new(),
    };
    format!(
        r#"{{"iss": "https://id.example.com", "aud": ["masked-mails"], "sub": "subject-1",
            {} "nonce": "{}", "exp": {}, "iat": 1700000000}}"#,
        email, nonce, expires
    )
}

const NOW: i64 = 1_700_000_100;

const LATER: u64 = 1_700_000_400;

fn token_set(id_token: Option<String>, access_token: &str) -> Result<TokenSet, String> {
    Ok(TokenSet { access_token: access_token.to_string(), id_token })
}

#[test]
fn discovery_accepts_well_formed_documents() {
    let authenticator =
        Authenticator::discover(flow_config(), METADATA.to_string(), KEYS.to_string());
    assert!(authenticator.is_ok());
}

#[test]
fn discovery_refuses_malformed_metadata() {
    let outcome = Authenticator::discover(flow_config(), "{}".to_string(), KEYS.to_string());
    assert!(matches!(outcome, Err(Error::DiscoverOidcFailed)));
    let outcome =
        Authenticator::discover(flow_config(), "not json".to_string(), KEYS.to_string());
    assert!(matches!(outcome, Err(Error::DiscoverOidcFailed)));
}

#[test]
fn discovery_refuses_malformed_keys() {
    let outcome =
        Authenticator::discover(flow_config(), METADATA.to_string(), "[1, 2]".to_string());
    assert!(matches!(outcome, Err(Error::DiscoverOidcFailed)));
}

#[test]
fn discovery_refuses_malformed_urls() {
    let mut config = flow_config();
    config.redirect_url = "/api/auth/callback".to_string();
    let outcome = Authenticator::discover(config, METADATA.to_string(), KEYS.to_string());
    assert!(matches!(outcome, Err(Error::DiscoverOidcFailed)));
    let mut config = flow_config();
    config.issuer_url = "id.example.com".to_string();
    let outcome = Authenticator::discover(config, METADATA.to_string(), KEYS.to_string());
    assert!(matches!(outcome, Err(Error::DiscoverOidcFailed)));
}

#[test]
fn authorize_url_embeds_every_parameter() {
    let authenticator = flow_authenticator();
    let url = authenticator.authorize_url_with("S1".to_string(), "N1".to_string());
    assert_eq!(
        url,
        "https://id.example.com/authorize?response_type=code&client_id=masked-mails&state=S1\
         &redirect_uri=https%3A%2F%2Fmail.example.com%2Fapi%2Fauth%2Fcallback\
         &scope=openid+email+profile&nonce=N1"
    );
}

#[test]
fn authorize_url_carries_its_own_tokens() {
    let authenticator = flow_authenticator();
    let (url, state, nonce) = authenticator.authorize_url();
    assert_eq!(url, authenticator.authorize_url_with(state.clone(), nonce.clone()));
    assert!(url.contains(&format!("state={}", state)));
    assert!(url.contains(&format!("nonce={}", nonce)));
}

#[test]
fn fresh_tokens_have_the_promised_shape() {
    let authenticator = flow_authenticator();
    for _ in 0..50 {
        let (_, state, nonce) = authenticator.authorize_url();
        for token in [state, nonce] {
            assert_eq!(token.chars().count(), 22);
            assert!(token
                .chars()
                .all(|c| c.is_ascii_alphanumeric() || c == '-' || c == '_'));
        }
    }
}

#[test]
fn fresh_tokens_do_not_collide() {
    let authenticator = flow_authenticator();
    let mut seen = std::collections::HashSet::new();
    for _ in 0..500 {
        let (_, state, nonce) = authenticator.authorize_url();
        assert_ne!(state, nonce);
        assert!(seen.insert(state));
        assert!(seen.insert(nonce));
    }
    assert_eq!(seen.len(), 1000);
}

#[test]
fn authenticate_compares_the_state_tokens() {
    let authenticator = flow_authenticator();
    let step = authenticator.authenticate(Credentials {
        code: "abc".to_string(),
        nonce: "N1".to_string(),
        old_state: "S1".to_string(),
        new_state: "S1".to_string(),
    });
    assert!(step == AuthStep::Exchange { code: "abc".to_string(), nonce: "N1".to_string() });
    let step = authenticator.authenticate(Credentials {
        code: "abc".to_string(),
        nonce: "N1".to_string(),
        old_state: "S1".to_string(),
        new_state: "S2".to_string(),
    });
    assert!(step == AuthStep::NoIdentity);
}

#[test]
fn verified_token_yields_the_identity() {
    let authenticator = flow_authenticator();
    let id_token = issue_id_token(
        &claims_json("N1", Some("a@example.com"), LATER),
        SECRET,
        Some("access-1"),
    );
    let verified = authenticator.verify_tokens("N1", token_set(Some(id_token), "access-1"), NOW);
    let verified = match verified {
        Ok(verified) => verified,
        Err(error) => panic!("refused: {:?}", error),
    };
    assert_eq!(verified.email, "a@example.com");
    assert_eq!(verified.access_token, "access-1");
    assert_eq!(verified.claims.email(), Some("a@example.com".to_string()));
    assert_eq!(verified.claims.nonce(), Some("N1".to_string()));
    assert!(verified.claims.access_token_hash().is_some());
    assert!(verified.claims.as_ref().contains("subject-1"));
}

#[test]
fn token_without_hash_claim_is_accepted() {
    let authenticator = flow_authenticator();
    let id_token =
        issue_id_token(&claims_json("N1", Some("a@example.com"), LATER), SECRET, None);
    let verified = authenticator.verify_tokens("N1", token_set(Some(id_token), "whatever"), NOW);
    assert!(verified.is_ok());
}

#[test]
fn failed_exchange_is_reported_as_such() {
    let authenticator = flow_authenticator();
    let outcome = authenticator.verify_tokens("N1", Err("connection refused".to_string()), NOW);
    assert_eq!(
        outcome.err(),
        Some(BackendError::TokenExchangeFailed("connection refused".to_string()))
    );
}

#[test]
fn missing_id_token_is_refused() {
    let authenticator = flow_authenticator();
    let outcome = authenticator.verify_tokens("N1", token_set(None, "access-1"), NOW);
    assert_eq!(outcome.err(), Some(BackendError::InvalidToken));
}

#[test]
fn other_nonce_is_refused() {
    let authenticator = flow_authenticator();
    let id_token = issue_id_token(
        &claims_json("N2", Some("a@example.com"), LATER),
        SECRET,
        Some("access-1"),
    );
    let outcome = authenticator.verify_tokens("N1", token_set(Some(id_token), "access-1"), NOW);
    assert!(matches!(outcome, Err(BackendError::InvalidTokenNonce(_))));
}

#[test]
fn substituted_access_token_is_refused() {
    let authenticator = flow_authenticator();
    let id_token = issue_id_token(
        &claims_json("N1", Some("a@example.com"), LATER),
        SECRET,
        Some("access-1"),
    );
    let outcome = authenticator.verify_tokens("N1", token_set(Some(id_token), "access-2"), NOW);
    assert_eq!(outcome.err(), Some(BackendError::InvalidAccessToken));
}

#[test]
fn forged_signature_is_refused() {
    let authenticator = flow_authenticator();
    let id_token = issue_id_token(
        &claims_json("N1", Some("a@example.com"), LATER),
        "another-secret-of-reasonable-length",
        Some("access-1"),
    );
    let outcome = authenticator.verify_tokens("N1", token_set(Some(id_token), "access-1"), NOW);
    assert!(matches!(outcome, Err(BackendError::InvalidTokenNonce(_))));
}

#[test]
fn expired_token_is_refused() {
    let authenticator = flow_authenticator();
    let id_token = issue_id_token(
        &claims_json("N1", Some("a@example.com"), LATER),
        SECRET,
        Some("access-1"),
    );
    let at = |now: i64| {
        authenticator.verify_tokens("N1", token_set(Some(id_token.clone()), "access-1"), now)
    };
    assert!(at(LATER as i64 - 1).is_ok());
    assert!(matches!(at(LATER as i64), Err(BackendError::InvalidTokenNonce(_))));
    assert!(matches!(at(LATER as i64 + 1), Err(BackendError::InvalidTokenNonce(_))));
    assert!(matches!(at(253_402_300_799), Err(BackendError::InvalidTokenNonce(_))));
    assert!(at(0).is_ok());
}

#[test]
fn clock_out_of_range_is_refused() {
    let authenticator = flow_authenticator();
    let id_token = issue_id_token(
        &claims_json("N1", Some("a@example.com"), LATER),
        SECRET,
        Some("access-1"),
    );
    let expected =
        Some(BackendError::ClockOutOfRange);
    let at = |now: i64| {
        authenticator.verify_tokens("N1", token_set(Some(id_token.clone()), "access-1"), now)
    };
    assert_eq!(at(-1).err(), expected);
    assert_eq!(at(253_402_300_800).err(), expected);
    assert_eq!(at(i64::MAX).err(), expected);
    assert_eq!(at(i64::MIN).err(), expected);
}

#[test]
fn verification_is_repeatable() {
    let authenticator = flow_authenticator();
    let id_token = issue_id_token(
        &claims_json("N1", Some("a@example.com"), LATER),
        SECRET,
        Some("access-1"),
    );
    let at = |now: i64| {
        authenticator.verify_tokens("N1", token_set(Some(id_token.clone()), "access-1"), now)
    };
    assert!(at(NOW) == at(NOW));
    assert!(at(LATER as i64) == at(LATER as i64));
}

#[test]
fn unreadable_id_token_is_refused() {
    let authenticator = flow_authenticator();
    let outcome =
        authenticator.verify_tokens("N1", token_set(Some("not.a.token".to_string()), "a"), NOW);
    assert!(matches!(outcome, Err(BackendError::InvalidTokenNonce(_))));
}

#[test]
fn token_without_email_is_refused() {
    let authenticator = flow_authenticator();
    let id_token = issue_id_token(&claims_json("N1", None, LATER), SECRET, Some("access-1"));
    let outcome = authenticator.verify_tokens("N1", token_set(Some(id_token), "access-1"), NOW);
    assert_eq!(outcome.err(), Some(BackendError::InvalidToken));
}

#[test]
fn issued_token_parses_back() {
    let id_token = issue_id_token(
        &claims_json("N1", Some("a@example.com"), LATER),
        SECRET,
        Some("access-1"),
    );
    assert!(openidconnect::core::CoreIdToken::from_str(&id_token).is_ok());
}

fn facts(nonce: Option<&str>, email: Option<&str>, claimed: Option<&str>, computed: Option<&str>)
    -> TokenFacts {
    TokenFacts {
        claims: Claims("{}".to_string()),
        nonce: nonce.map(str::to_string),
        email: email.map(str::to_string),
        access_token_hash: claimed.map(str::to_string),
        computed_hash: computed.map(str::to_string),
        access_token: "access-1".to_string(),
    }
}

#[test]
fn judge_accepts_when_every_check_passes() {
    let verified = judge(facts(Some("N1"), Some("a@example.com"), Some("h"), Some("h")), "N1");
    let verified = verified.ok().unwrap();
    assert_eq!(verified.email, "a@example.com");
    assert_eq!(verified.access_token, "access-1");
    assert_eq!(verified.claims, Claims("{}".to_string()));
    assert!(judge(facts(Some("N1"), Some("a@example.com"), None, None), "N1").is_ok());
    assert!(judge(facts(Some("N1"), Some("a@example.com"), None, Some("h")), "N1").is_ok());
}

#[test]
fn judge_checks_the_nonce_first() {
    let expected = Some(BackendError::InvalidTokenNonce(
        "the nonce claim is not the nonce of this login".to_string(),
    ));
    assert_eq!(judge(facts(Some("N2"), Some("a@example.com"), None, None), "N1").err(), expected);
    assert_eq!(judge(facts(None, Some("a@example.com"), None, None), "N1").err(), expected);
    assert_eq!(judge(facts(Some("N2"), None, Some("h"), Some("g")), "N1").err(), expected);
    assert_eq!(judge(facts(Some(""), None, None, None), "N1").err(), expected);
}

#[test]
fn judge_checks_the_hash_before_the_email() {
    let expected = Some(BackendError::InvalidAccessToken);
    assert_eq!(judge(facts(Some("N1"), None, Some("h"), Some("g")), "N1").err(), expected);
    assert_eq!(judge(facts(Some("N1"), Some("a@x"), Some("h"), None), "N1").err(), expected);
    assert_eq!(
        judge(facts(Some("N1"), None, Some("h"), Some("h")), "N1").err(),
        Some(BackendError::InvalidToken)
    );
    assert_eq!(
        judge(facts(Some("N1"), None, None, None), "N1").err(),
        Some(BackendError::InvalidToken)
    );
}

#[test]
fn conclude_wraps_the_stored_user() {
    let user = User { id: 7, email: "a@example.com".to_string(), access_token: "t".to_string() };
    let outcome = conclude(Ok(user.clone()));
    assert!(outcome == Ok(Some(user)));
    let outcome = conclude(Err("connection lost".to_string()));
    assert!(outcome == Err(BackendError::Sqlx("connection lost".to_string())));
}

#[test]
fn get_user_answers_only_with_the_user_asked_for() {
    let user = User { id: 7, email: "a@example.com".to_string(), access_token: "t".to_string() };
    assert!(get_user(7, Ok(Some(user.clone()))) == Ok(Some(user.clone())));
    assert!(get_user(8, Ok(Some(user))) == Ok(None));
    assert!(get_user(7, Ok(None)) == Ok(None));
    assert!(get_user(7, Err("gone".to_string())) == Err(BackendError::Sqlx("gone".to_string())));
}

#[test]
fn end_to_end_login() {
    let authenticator = flow_authenticator();
    let mut session = Session::new();
    let mut directory = UserDirectory::new();

    // The login begins; the scenario fixes the two tokens.
    session.begin("S1".to_string(), "N1".to_string(), Some("/addresses".to_string()));

    // The provider redirects back.
    let query = AuthResponse { code: "abc".to_string(), state: "S1".to_string() };
    let (creds, return_path) = match callback(&mut session, query) {
        CallbackStep::Authenticate { creds, return_path } => (creds, return_path),
        CallbackStep::Reply(reply) => panic!("refused: {:?}", reply),
    };
    assert_eq!(return_path, Some("/addresses".to_string()));
    let (code, nonce) = match authenticator.authenticate(creds) {
        AuthStep::Exchange { code, nonce } => (code, nonce),
        AuthStep::NoIdentity => panic!("no identity"),
    };
    assert_eq!(code, "abc");
    assert_eq!(nonce, "N1");

    // The simulated provider answers the exchange.
    let id_token = issue_id_token(
        &claims_json("N1", Some("a@example.com"), LATER),
        SECRET,
        Some("access-1"),
    );
    let verified = authenticator
        .verify_tokens(&nonce, token_set(Some(id_token), "access-1"), NOW)
        .ok()
        .unwrap();
    assert_eq!(verified.email, "a@example.com");

    let stored = directory
        .upsert(&verified.email, &verified.access_token)
        .map_err(|e| e.message());
    let user = match identity(conclude(stored)) {
        Ok(user) => user,
        Err(reply) => panic!("refused: {:?}", reply),
    };
    assert_eq!(user.id, 1);
    assert_eq!(user.email, "a@example.com");

    session.login(&user);
    assert_eq!(welcome(true, return_path), Reply::Redirect("/addresses".to_string()));

    // A later request for the user's own record.
    let found = directory.get_user(session.user_id().unwrap());
    let principal = session.authorize(found);
    assert!(principal == Some(user.clone()));
    assert_eq!(
        userinfo(principal.as_ref()),
        Reply::Status(
            200,
            "User { id: 1, email: \"a@example.com\", access_token: \"[redacted]\" }".to_string()
        )
    );
}

#[test]
fn end_to_end_unknown_state() {
    let authenticator = flow_authenticator();
    let mut session = Session::new();
    let directory = UserDirectory::new();
    session.begin("S1".to_string(), "N1".to_string(), Some("/addresses".to_string()));

    let query = AuthResponse { code: "abc".to_string(), state: "S2".to_string() };
    let step = callback(&mut session, query);
    assert!(step == CallbackStep::Reply(Reply::Status(401, "invalid csrf state".to_string())));
    assert!(directory.get_user(1).is_none());
    assert_eq!(session.user_id(), None);
    // The login that is in flight was not touched.
    assert!(session.take("S1").is_some());
}

#[test]
fn callback_without_any_login_is_a_bad_request() {
    let mut session = Session::new();
    let query = AuthResponse { code: "abc".to_string(), state: "S1".to_string() };
    assert!(callback(&mut session, query) == CallbackStep::Reply(Reply::Status(400, "missing csrf state".to_string())));
}

#[test]
fn callback_on_a_state_without_nonce_says_so() {
    let states = vec!["S1".to_string()];
    for presented in ["S1", "S2", ""] {
        let pending = masked_mails::pending::PendingStore::restore(&states, &vec![], &vec![]);
        let mut session = Session::restore(pending, None);
        let query = AuthResponse { code: "abc".to_string(), state: presented.to_string() };
        assert!(
            callback(&mut session, query)
                == CallbackStep::Reply(Reply::Status(400, "missing nonce".to_string()))
        );
        // Nothing was consumed and nothing handed out.
        assert_eq!(session.pending().len(), 1);
        assert!(session.pending().lacks_nonce());
    }
}

#[test]
fn abandoned_attempt_no_longer_answers() {
    let authenticator = flow_authenticator();
    let mut session = Session::new();
    session.begin("S0".to_string(), "N0".to_string(), Some("/old".to_string()));
    let reply = login(&authenticator, &mut session, NextUrl { next: None });
    assert!(matches!(reply, Reply::Redirect(_)));
    let (states, nonces, paths) = session.pending().columns();
    assert_eq!(states.len(), 1);
    assert_ne!(states[0], "S0");
    assert!(nonces[0].is_some());
    assert_eq!(paths, vec![None]);
    let query = AuthResponse { code: "abc".to_string(), state: "S0".to_string() };
    assert!(
        callback(&mut session, query)
            == CallbackStep::Reply(Reply::Status(401, "invalid csrf state".to_string()))
    );
}

#[test]
fn replayed_callback_is_rejected() {
    let mut session = Session::new();
    session.begin("S1".to_string(), "N1".to_string(), None);
    let first = callback(
        &mut session,
        AuthResponse { code: "abc".to_string(), state: "S1".to_string() },
    );
    assert!(first == CallbackStep::Authenticate {
            creds: Credentials {
                code: "abc".to_string(),
                nonce: "N1".to_string(),
                old_state: "S1".to_string(),
                new_state: "S1".to_string(),
            },
            return_path: None,
        });
    let again = callback(
        &mut session,
        AuthResponse { code: "abc".to_string(), state: "S1".to_string() },
    );
    assert!(again == CallbackStep::Reply(Reply::Status(400, "missing csrf state".to_string())));
}

#[test]
fn login_route_stores_what_it_sends() {
    let authenticator = flow_authenticator();
    let mut session = Session::new();
    let reply = login(&authenticator, &mut session, NextUrl { next: Some("/x".to_string()) });
    let url = match reply {
        Reply::Redirect(url) => url,
        other => panic!("no redirect: {:?}", other),
    };
    let state = url.split("state=").nth(1).unwrap().split('&').next().unwrap().to_string();
    let nonce = url.split("nonce=").nth(1).unwrap().split('&').next().unwrap().to_string();
    let pending = session.take(&state).unwrap();
    assert_eq!(pending.csrf_state, state);
    assert_eq!(pending.nonce, Some(nonce));
    assert_eq!(pending.return_path, Some("/x".to_string()));
}
