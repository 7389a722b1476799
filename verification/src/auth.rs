//! OIDC authentication
//!
//! A login runs in three steps, with the provider and the user storage in
//! between. `Authenticator::authenticate` decides whether a callback belongs to
//! a login of this visitor. The caller then exchanges the code at the
//! provider's token endpoint and hands the answer to
//! `Authenticator::verify_tokens`, together with the time, which checks the ID
//! token, its nonce and its access-token hash. The caller stores the verified
//! identity and hands the stored user to `conclude`.

use vstd::prelude::*;
use crate::config::AuthConfig;
use crate::error::Error;
use crate::text::text_of;
use crate::provider::{
    access_token_hash_of, authorization_url, build_authorization_url, fresh_nonce, fresh_state,
    hash_access_token, is_random_token, key_set_accepted, metadata_accepted, parses_as_key_set,
    parses_as_metadata, parses_as_url, read_text_member, text_member, url_accepted,
    verified_claims, verify_id_token, LATEST_CLOCK,
};
use crate::user::User;

verus! {

/// What one callback brings: the authorization code and the state token from
/// the provider's redirect, and the nonce and state token that were stored
/// when the login began.
#[derive(PartialEq, Eq)]
pub struct Credentials {
    pub code: String,
    pub nonce: String,
    pub old_state: String,
    pub new_state: String,
}

/// Why a login failed. The variants that carry text carry what the
/// collaborator reported.
#[derive(Debug, PartialEq, Eq)]
pub enum BackendError {
    /// The user storage failed.
    Sqlx(String),
    /// The provider's token endpoint could not be reached or refused the code.
    TokenExchangeFailed(String),
    /// The token response lacks the ID token, or the ID token lacks the email.
    InvalidToken,
    /// The ID token did not pass verification: signature, issuer, audience,
    /// expiry or nonce.
    InvalidTokenNonce(String),
    /// The access token is not the one that the ID token was issued with.
    InvalidAccessToken,
    /// The time handed in is before the epoch or after the year 9999, so no
    /// token could be checked against it. A fault of this service, not of the
    /// token.
    ClockOutOfRange,
}

/// A `BackendError` as plain values.
pub enum Failure {
    Sqlx(Seq<char>),
    TokenExchangeFailed(Seq<char>),
    InvalidToken,
    InvalidTokenNonce(Seq<char>),
    InvalidAccessToken,
    ClockOutOfRange,
}

impl View for BackendError {
    type V = Failure;

    open spec fn view(&self) -> Failure {
        match *self {
            BackendError::Sqlx(detail) => Failure::Sqlx(detail@),
            BackendError::TokenExchangeFailed(detail) => Failure::TokenExchangeFailed(detail@),
            BackendError::InvalidToken => Failure::InvalidToken,
            BackendError::InvalidTokenNonce(detail) => Failure::InvalidTokenNonce(detail@),
            BackendError::InvalidAccessToken => Failure::InvalidAccessToken,
            BackendError::ClockOutOfRange => Failure::ClockOutOfRange,
        }
    }
}

impl Failure {
    /// Whether the failure is a verdict on the provider's answer, as opposed to
    /// an outage of the provider, of the storage or of the clock.
    pub open spec fn is_rejection(self) -> bool {
        self is InvalidToken || self is InvalidTokenNonce || self is InvalidAccessToken
    }

    /// The failure in words.
    pub open spec fn message_text(self) -> Seq<char> {
        match self {
            Failure::Sqlx(detail) => detail,
            Failure::TokenExchangeFailed(_) =>
                "could not exchange authorization token for access token"@,
            Failure::InvalidToken =>
                "the received exchange token does not include expected fields"@,
            Failure::InvalidTokenNonce(_) => "the received exchange tokens nonce does not match"@,
            Failure::InvalidAccessToken => "invalid access token"@,
            Failure::ClockOutOfRange => "the clock is out of range"@,
        }
    }
}

impl BackendError {
    /// Whether the error is a verdict on the provider's answer, as opposed to an
    /// outage of the provider, of the storage or of the clock.
    pub fn is_rejection(&self) -> (verdict: bool)
        ensures
            verdict == self@.is_rejection(),
    {
        match self {
            BackendError::InvalidToken => true,
            BackendError::InvalidTokenNonce(_) => true,
            BackendError::InvalidAccessToken => true,
            BackendError::Sqlx(_) => false,
            BackendError::TokenExchangeFailed(_) => false,
            BackendError::ClockOutOfRange => false,
        }
    }

    /// The error in words. A storage failure reads as the storage reported it.
    pub fn message(&self) -> (text: String)
        ensures
            text@ == self@.message_text(),
    {
        match self {
            BackendError::Sqlx(detail) => detail.clone(),
            BackendError::TokenExchangeFailed(_) =>
                "could not exchange authorization token for access token".to_owned(),
            BackendError::InvalidToken =>
                "the received exchange token does not include expected fields".to_owned(),
            BackendError::InvalidTokenNonce(_) =>
                "the received exchange tokens nonce does not match".to_owned(),
            BackendError::InvalidAccessToken => "invalid access token".to_owned(),
            BackendError::ClockOutOfRange => "the clock is out of range".to_owned(),
        }
    }
}

/// The name of the claim that repeats the nonce of the login.
pub open spec fn nonce_claim() -> Seq<char> {
    "nonce"@
}

/// The name of the claim that holds the email of the subject.
pub open spec fn email_claim() -> Seq<char> {
    "email"@
}

/// The name of the claim that binds the ID token to an access token.
pub open spec fn access_token_hash_claim() -> Seq<char> {
    "at_hash"@
}

/// The claim set of a verified ID token: a JSON object, as text.
#[derive(Debug, PartialEq, Eq)]
pub struct Claims(pub String);

impl View for Claims {
    type V = Seq<char>;

    open spec fn view(&self) -> Seq<char> {
        self.0@
    }
}

impl Claims {
    /// The claim set as text.
    pub fn as_ref(&self) -> (raw: &String)
        ensures
            raw@ == self@,
    {
        &self.0
    }

    /// The nonce that the ID token carries.
    pub fn nonce(&self) -> (claim: Option<String>)
        ensures
            text_of(claim) == text_member(self@, nonce_claim()),
    {
        read_text_member(self.0.as_str(), "nonce")
    }

    /// The email of the subject.
    pub fn email(&self) -> (claim: Option<String>)
        ensures
            text_of(claim) == text_member(self@, email_claim()),
    {
        read_text_member(self.0.as_str(), "email")
    }

    /// The hash of the access token that the ID token was issued with.
    pub fn access_token_hash(&self) -> (claim: Option<String>)
        ensures
            text_of(claim) == text_member(self@, access_token_hash_claim()),
    {
        read_text_member(self.0.as_str(), "at_hash")
    }
}

/// What the provider's token endpoint answered.
#[derive(PartialEq, Eq)]
pub struct TokenSet {
    /// The access token.
    pub access_token: String,
    /// The ID token in its compact form, if the answer holds one.
    pub id_token: Option<String>,
}

/// Everything that the verdict on a token response rests on.
#[derive(PartialEq, Eq)]
pub struct TokenFacts {
    /// The claim set of the ID token, which passed verification.
    pub claims: Claims,
    /// The nonce claim.
    pub nonce: Option<String>,
    /// The email claim.
    pub email: Option<String>,
    /// The access-token-hash claim.
    pub access_token_hash: Option<String>,
    /// The hash of the access token that was received, computed under the
    /// algorithm that the ID token declares; `None` where it declares none.
    pub computed_hash: Option<String>,
    /// The access token that was received.
    pub access_token: String,
}

/// An identity that passed every check.
#[derive(PartialEq, Eq)]
pub struct VerifiedClaims {
    /// The email of the subject.
    pub email: String,
    /// The access token that came with the ID token.
    pub access_token: String,
    /// The whole claim set.
    pub claims: Claims,
}

/// `VerifiedClaims` as plain values.
pub struct VerifiedModel {
    pub email: Seq<char>,
    pub access_token: Seq<char>,
    pub claims: Seq<char>,
}

impl View for VerifiedClaims {
    type V = VerifiedModel;

    open spec fn view(&self) -> VerifiedModel {
        VerifiedModel {
            email: self.email@,
            access_token: self.access_token@,
            claims: self.claims@,
        }
    }
}

/// The detail reported where the nonce claim is not the nonce of the login.
pub open spec fn nonce_mismatch_text() -> Seq<char> {
    "the nonce claim is not the nonce of this login"@
}

/// The verdict on a token response whose ID token passed verification. The
/// checks come in this order, and none is skipped: the nonce claim is the
/// nonce of the login; the access-token-hash claim, if there is one, is the
/// hash of the access token received; the email claim is there.
pub open spec fn verdict(
    claims: Seq<char>,
    nonce: Option<Seq<char>>,
    email: Option<Seq<char>>,
    claimed_hash: Option<Seq<char>>,
    computed_hash: Option<Seq<char>>,
    access_token: Seq<char>,
    expected_nonce: Seq<char>,
) -> Result<VerifiedModel, Failure> {
    if nonce != Some(expected_nonce) {
        Err(Failure::InvalidTokenNonce(nonce_mismatch_text()))
    } else if claimed_hash is Some && claimed_hash != computed_hash {
        Err(Failure::InvalidAccessToken)
    } else {
        match email {
            None => Err(Failure::InvalidToken),
            Some(email) => Ok(VerifiedModel { email, access_token, claims }),
        }
    }
}

/// An ID token whose nonce claim is not the nonce of the login is refused,
/// whatever else it holds.
pub proof fn law_nonce_mismatch(
    claims: Seq<char>,
    nonce: Option<Seq<char>>,
    email: Option<Seq<char>>,
    claimed_hash: Option<Seq<char>>,
    computed_hash: Option<Seq<char>>,
    access_token: Seq<char>,
    expected_nonce: Seq<char>,
)
    requires
        nonce != Some(expected_nonce),
    ensures
        verdict(claims, nonce, email, claimed_hash, computed_hash, access_token, expected_nonce)
            matches Err(Failure::InvalidTokenNonce(_)),
{
}

/// An ID token with the right nonce whose access-token-hash claim is not the
/// hash of the access token received is refused, and with another error than
/// a wrong nonce.
pub proof fn law_hash_mismatch(
    claims: Seq<char>,
    email: Option<Seq<char>>,
    claimed_hash: Seq<char>,
    computed_hash: Option<Seq<char>>,
    access_token: Seq<char>,
    expected_nonce: Seq<char>,
)
    requires
        computed_hash != Some(claimed_hash),
    ensures
        verdict(
            claims,
            Some(expected_nonce),
            email,
            Some(claimed_hash),
            computed_hash,
            access_token,
            expected_nonce,
        ) == Err::<VerifiedModel, Failure>(Failure::InvalidAccessToken),
        !(Failure::InvalidAccessToken is InvalidTokenNonce),
{
}

/// A verdict in favour means that every check passed: the nonce is the one
/// of the login, the access-token hash, if claimed, is the computed one, and
/// the identity is the email claim with the access token received.
pub proof fn law_accepted(
    claims: Seq<char>,
    nonce: Option<Seq<char>>,
    email: Option<Seq<char>>,
    claimed_hash: Option<Seq<char>>,
    computed_hash: Option<Seq<char>>,
    access_token: Seq<char>,
    expected_nonce: Seq<char>,
)
    requires
        verdict(claims, nonce, email, claimed_hash, computed_hash, access_token, expected_nonce)
            is Ok,
    ensures
        nonce == Some(expected_nonce),
        claimed_hash is Some ==> claimed_hash == computed_hash,
        email is Some,
        verdict(claims, nonce, email, claimed_hash, computed_hash, access_token, expected_nonce)
            == Ok::<VerifiedModel, Failure>(
            VerifiedModel { email: email.unwrap(), access_token, claims },
        ),
{
}

/// The outcome of `verify_tokens` as plain values.
pub open spec fn outcome_view(outcome: Result<VerifiedClaims, BackendError>) -> Result<
    VerifiedModel,
    Failure,
> {
    match outcome {
        Ok(verified) => Ok(verified@),
        Err(error) => Err(error@),
    }
}

fn same_text(left: &Option<String>, right: &Option<String>) -> (same: bool)
    ensures
        same == (text_of(*left) == text_of(*right)),
{
    match (left, right) {
        (Some(l), Some(r)) => *l == *r,
        (None, None) => true,
        _ => false,
    }
}

/// Decides on a token response whose ID token passed verification.
pub fn judge(facts: TokenFacts, expected_nonce: &str) -> (outcome: Result<
    VerifiedClaims,
    BackendError,
>)
    ensures
        outcome_view(outcome) == verdict(
            facts.claims@,
            text_of(facts.nonce),
            text_of(facts.email),
            text_of(facts.access_token_hash),
            text_of(facts.computed_hash),
            facts.access_token@,
            expected_nonce@,
        ),
{
    let expected = Some(expected_nonce.to_owned());
    if !same_text(&facts.nonce, &expected) {
        return Err(
            BackendError::InvalidTokenNonce(
                "the nonce claim is not the nonce of this login".to_owned(),
            ),
        );
    }
    if facts.access_token_hash.is_some() && !same_text(
        &facts.access_token_hash,
        &facts.computed_hash,
    ) {
        return Err(BackendError::InvalidAccessToken);
    }
    match facts.email {
        None => Err(BackendError::InvalidToken),
        Some(email) => Ok(
            VerifiedClaims { email, access_token: facts.access_token, claims: facts.claims },
        ),
    }
}

/// What to do with a callback.
#[derive(PartialEq, Eq)]
pub enum AuthStep {
    /// The callback does not answer a login of this visitor. No identity, and
    /// no error either.
    NoIdentity,
    /// Exchange the code at the provider's token endpoint, then verify the
    /// answer against the nonce.
    Exchange { code: String, nonce: String },
}

/// An `AuthStep` as plain values.
pub enum AuthStepModel {
    NoIdentity,
    Exchange { code: Seq<char>, nonce: Seq<char> },
}

impl View for AuthStep {
    type V = AuthStepModel;

    open spec fn view(&self) -> AuthStepModel {
        match *self {
            AuthStep::NoIdentity => AuthStepModel::NoIdentity,
            AuthStep::Exchange { code, nonce } => AuthStepModel::Exchange {
                code: code@,
                nonce: nonce@,
            },
        }
    }
}

/// What to do with a callback, on plain values: the state token that came
/// back has to be the one that was stored. If it is, the code is to be
/// exchanged. If it is not, there is no identity, and no error.
pub open spec fn step_for(
    code: Seq<char>,
    nonce: Seq<char>,
    old_state: Seq<char>,
    new_state: Seq<char>,
) -> AuthStepModel {
    if old_state == new_state {
        AuthStepModel::Exchange { code, nonce }
    } else {
        AuthStepModel::NoIdentity
    }
}

/// The end of a login whose identity the storage was asked to record.
pub fn conclude(stored: Result<User, String>) -> (outcome: Result<Option<User>, BackendError>)
    ensures
        match stored {
            Ok(user) => outcome == Ok::<Option<User>, BackendError>(Some(user)),
            Err(detail) => outcome == Err::<Option<User>, BackendError>(
                BackendError::Sqlx(detail),
            ),
        },
{
    match stored {
        Ok(user) => Ok(Some(user)),
        Err(detail) => Err(BackendError::Sqlx(detail)),
    }
}

/// The answer to a session that asks for the user it is bound to, given what
/// the storage found under the identifier. A user with another identifier
/// is no answer.
pub fn get_user(user_id: i32, found: Result<Option<User>, String>) -> (outcome: Result<
    Option<User>,
    BackendError,
>)
    ensures
        match found {
            Ok(Some(user)) => outcome == Ok::<Option<User>, BackendError>(
                if user.id == user_id {
                    Some(user)
                } else {
                    None
                },
            ),
            Ok(None) => outcome == Ok::<Option<User>, BackendError>(None),
            Err(detail) => outcome == Err::<Option<User>, BackendError>(
                BackendError::Sqlx(detail),
            ),
        },
{
    match found {
        Ok(Some(user)) => if user.id == user_id {
            Ok(Some(user))
        } else {
            Ok(None)
        },
        Ok(None) => Ok(None),
        Err(detail) => Err(BackendError::Sqlx(detail)),
    }
}

/// The scopes that every login asks for, besides `openid`.
pub open spec fn requested_scopes() -> Seq<Seq<char>> {
    seq!["email"@, "profile"@]
}

/// The client of the identity provider: the registration of this service and
/// the provider's discovery documents. Built once, never changed, shared by
/// all requests.
pub struct Authenticator {
    config: AuthConfig,
    metadata: String,
    jwks: String,
}

impl Authenticator {
    #[verifier::type_invariant]
    spec fn usable(self) -> bool {
        &&& metadata_accepted(self.metadata@)
        &&& key_set_accepted(self.jwks@)
        &&& url_accepted(self.config.issuer_url@)
        &&& url_accepted(self.config.redirect_url@)
    }

    /// The registration that the client was built with.
    pub closed spec fn config(&self) -> AuthConfig {
        self.config
    }

    /// The provider's metadata document.
    pub closed spec fn metadata(&self) -> Seq<char> {
        self.metadata@
    }

    /// The provider's key set.
    pub closed spec fn key_set(&self) -> Seq<char> {
        self.jwks@
    }

    /// Whether a client can be built from these parts.
    pub open spec fn discoverable(config: AuthConfig, metadata: Seq<char>, jwks: Seq<char>) -> bool {
        &&& metadata_accepted(metadata)
        &&& key_set_accepted(jwks)
        &&& url_accepted(config.issuer_url@)
        &&& url_accepted(config.redirect_url@)
    }

    /// Builds the client from the registration and the two documents that
    /// discovery fetched from the issuer. Fails, once and for all, where a
    /// document or a URL of the registration is malformed.
    pub fn discover(config: AuthConfig, metadata: String, jwks: String) -> (client: Result<
        Self,
        Error,
    >)
        ensures
            match client {
                Ok(authenticator) => {
                    &&& Self::discoverable(config, metadata@, jwks@)
                    &&& authenticator.config() == config
                    &&& authenticator.metadata() == metadata@
                    &&& authenticator.key_set() == jwks@
                },
                Err(error) => {
                    &&& !Self::discoverable(config, metadata@, jwks@)
                    &&& error == Error::DiscoverOidcFailed
                },
            },
    {
        if parses_as_metadata(metadata.as_str()) && parses_as_key_set(jwks.as_str())
            && parses_as_url(config.issuer_url.as_str()) && parses_as_url(
            config.redirect_url.as_str(),
        ) {
            Ok(Authenticator { config, metadata, jwks })
        } else {
            Err(Error::DiscoverOidcFailed)
        }
    }

    /// The URL that sends a visitor to the provider for a login with the given
    /// state token and nonce: the authorization URL that the provider library
    /// builds from the provider's metadata, the client id and the redirect URL
    /// of this client, the requested scopes, and the two tokens.
    pub open spec fn login_url(&self, state: Seq<char>, nonce: Seq<char>) -> Seq<char> {
        authorization_url(
            self.metadata(),
            self.config().client_id@,
            self.config().redirect_url@,
            requested_scopes(),
            state,
            nonce,
        )
    }

    /// The provider's authorization URL for a login with the given state token
    /// and nonce.
    pub fn authorize_url_with(&self, state: String, nonce: String) -> (url: String)
        ensures
            url@ == self.login_url(state@, nonce@),
    {
        proof {
            use_type_invariant(self);
        }
        let mut scopes: Vec<String> = Vec::new();
        scopes.push("email".to_owned());
        scopes.push("profile".to_owned());
        assert(scopes@.map_values(|s: String| s@) =~= requested_scopes());
        build_authorization_url(
            self.metadata.as_str(),
            self.config.client_id.as_str(),
            self.config.redirect_url.as_str(),
            &scopes,
            state,
            nonce,
        )
    }

    /// Begins a login: a fresh state token, a fresh nonce, and the provider's
    /// authorization URL that carries both. Nothing is stored; the caller has
    /// to remember the two tokens before it redirects.
    pub fn authorize_url(&self) -> (login: (String, String, String))
        ensures
            is_random_token(login.1@),
            is_random_token(login.2@),
            login.0@ == self.login_url(login.1@, login.2@),
    {
        let state = fresh_state();
        let nonce = fresh_nonce();
        let url = self.authorize_url_with(state.clone(), nonce.clone());
        (url, state, nonce)
    }

    /// Decides whether a callback answers a login of this visitor.
    pub fn authenticate(&self, creds: Credentials) -> (step: AuthStep)
        ensures
            step@ == step_for(creds.code@, creds.nonce@, creds.old_state@, creds.new_state@),
    {
        if creds.old_state == creds.new_state {
            AuthStep::Exchange { code: creds.code, nonce: creds.nonce }
        } else {
            AuthStep::NoIdentity
        }
    }

    /// What the verification of an ID token against the provider's keys, this
    /// client's registration and the nonce comes to at the time `now`: the
    /// claim set of an accepted token, or the refusal in words.
    pub open spec fn verification(&self, id_token: Seq<char>, nonce: Seq<char>, now: int) -> Result<
        Seq<char>,
        Seq<char>,
    > {
        verified_claims(
            self.metadata(),
            self.key_set(),
            self.config().client_id@,
            self.config().client_secret@,
            id_token,
            nonce,
            now,
        )
    }

    /// The outcome of a login given what the token endpoint answered, the
    /// nonce of the login and the time. A failed exchange and a missing ID
    /// token are errors. A time out of range is an error of its own, and no
    /// verdict on the token. An ID token that fails verification is refused.
    /// For one that passes, the verdict on its claims decides.
    pub open spec fn outcome_of(
        &self,
        exchange: Result<TokenSet, String>,
        nonce: Seq<char>,
        now: int,
    ) -> Result<VerifiedModel, Failure> {
        match exchange {
            Err(detail) => Err(Failure::TokenExchangeFailed(detail@)),
            Ok(tokens) => match tokens.id_token {
                None => Err(Failure::InvalidToken),
                Some(id_token) => if !(0 <= now <= LATEST_CLOCK) {
                    Err(Failure::ClockOutOfRange)
                } else {
                    match self.verification(id_token@, nonce, now) {
                        Err(detail) => Err(Failure::InvalidTokenNonce(detail)),
                        Ok(claims) => verdict(
                            claims,
                            text_member(claims, nonce_claim()),
                            text_member(claims, email_claim()),
                            text_member(claims, access_token_hash_claim()),
                            access_token_hash_of(id_token@, tokens.access_token@),
                            tokens.access_token@,
                            nonce,
                        ),
                    }
                },
            },
        }
    }

    /// Checks what the token endpoint answered, at the time `now` in seconds
    /// since the epoch.
    pub fn verify_tokens(&self, nonce: &str, exchange: Result<TokenSet, String>, now: i64) -> (outcome:
        Result<VerifiedClaims, BackendError>)
        ensures
            outcome_view(outcome) == self.outcome_of(exchange, nonce@, now as int),
    {
        let tokens = match exchange {
            Ok(tokens) => tokens,
            Err(detail) => {
                return Err(BackendError::TokenExchangeFailed(detail));
            },
        };
        let id_token = match tokens.id_token {
            Some(id_token) => id_token,
            None => {
                return Err(BackendError::InvalidToken);
            },
        };
        if now < 0 || now > LATEST_CLOCK {
            return Err(BackendError::ClockOutOfRange);
        }
        proof {
            use_type_invariant(self);
        }
        let verified = verify_id_token(
            self.metadata.as_str(),
            self.jwks.as_str(),
            self.config.client_id.as_str(),
            self.config.client_secret.as_str(),
            id_token.as_str(),
            nonce,
            now,
        );
        let claims = match verified {
            Ok(raw) => Claims(raw),
            Err(detail) => {
                return Err(BackendError::InvalidTokenNonce(detail));
            },
        };
        let facts = TokenFacts {
            nonce: claims.nonce(),
            email: claims.email(),
            access_token_hash: claims.access_token_hash(),
            computed_hash: hash_access_token(id_token.as_str(), tokens.access_token.as_str()),
            access_token: tokens.access_token,
            claims,
        };
        judge(facts, nonce)
    }
}

} // verus!
