//! The boundary to the OpenID Connect provider library.
//!
//! Everything the identity provider contributes is held here as text: the
//! discovery document, the key set, tokens. Each function below hands such text
//! to `openidconnect` (or `url`) and returns text again; none of their bodies is
//! verified, so each contract is an assumption about that crate.

use vstd::prelude::*;
use std::str::FromStr;
use openidconnect::{
    AccessToken, AccessTokenHash, ClientId, ClientSecret, CsrfToken, Nonce, RedirectUrl, Scope,
};
use serde_json::from_str;
use crate::text::{result_text, text_of};

verus! {

/// Length of a token that `openidconnect` generates from 16 random bytes.
pub const RANDOM_TOKEN_LEN: usize = 22;

/// The alphabet of unpadded URL-safe base64.
pub open spec fn is_url_safe_char(c: char) -> bool {
    ||| 'A' <= c <= 'Z'
    ||| 'a' <= c <= 'z'
    ||| '0' <= c <= '9'
    ||| c == '-'
    ||| c == '_'
}

/// What every freshly generated state token and nonce looks like.
pub open spec fn is_random_token(token: Seq<char>) -> bool {
    &&& token.len() == RANDOM_TOKEN_LEN
    &&& forall|i: int| 0 <= i < token.len() ==> is_url_safe_char(#[trigger] token[i])
}

/// Whether `url::Url::parse` accepts the text.
pub uninterp spec fn url_accepted(text: Seq<char>) -> bool;

/// Whether the text deserializes as the provider metadata of `openidconnect`.
pub uninterp spec fn metadata_accepted(metadata: Seq<char>) -> bool;

/// Whether the text deserializes as a JSON Web Key Set of `openidconnect`.
pub uninterp spec fn key_set_accepted(jwks: Seq<char>) -> bool;

/// The authorization URL that `openidconnect` builds for a code-flow request.
pub uninterp spec fn authorization_url(
    metadata: Seq<char>,
    client_id: Seq<char>,
    redirect_url: Seq<char>,
    scopes: Seq<Seq<char>>,
    state: Seq<char>,
    nonce: Seq<char>,
) -> Seq<char>;

/// The `at_hash` value that belongs to an access token under the signing
/// algorithm that the ID token declares; `None` where the ID token cannot be
/// read or declares no usable algorithm.
pub uninterp spec fn access_token_hash_of(id_token: Seq<char>, access_token: Seq<char>) -> Option<
    Seq<char>,
>;

/// The latest time that a clock may show: the last second of the year 9999,
/// in seconds since the epoch.
pub const LATEST_CLOCK: i64 = 253_402_300_799;

/// What the verification of an ID token comes to at a given time: the claim
/// set of an accepted token as a JSON object, or the refusal in words.
pub uninterp spec fn verified_claims(
    metadata: Seq<char>,
    jwks: Seq<char>,
    client_id: Seq<char>,
    client_secret: Seq<char>,
    id_token: Seq<char>,
    nonce: Seq<char>,
    now: int,
) -> Result<Seq<char>, Seq<char>>;

/// The text that a JSON document holds under a member name, as `serde_json`
/// reads it.
pub uninterp spec fn text_member(document: Seq<char>, member: Seq<char>) -> Option<Seq<char>>;

/// `url::Url::parse`: reports whether the text is an absolute URL.
#[verifier::external_body]
pub(crate) fn parses_as_url(text: &str) -> (accepted: bool)
    ensures
        accepted == url_accepted(text@),
{
    url::Url::parse(text).is_ok()
}

/// `serde_json::from_str` into `CoreProviderMetadata`: reports whether the
/// discovery document deserializes.
#[verifier::external_body]
pub(crate) fn parses_as_metadata(metadata: &str) -> (accepted: bool)
    ensures
        accepted == metadata_accepted(metadata@),
{
    from_str::<openidconnect::core::CoreProviderMetadata>(metadata).is_ok()
}

/// `serde_json::from_str` into `CoreJsonWebKeySet`: reports whether the key
/// document deserializes.
#[verifier::external_body]
pub(crate) fn parses_as_key_set(jwks: &str) -> (accepted: bool)
    ensures
        accepted == key_set_accepted(jwks@),
{
    from_str::<openidconnect::core::CoreJsonWebKeySet>(jwks).is_ok()
}

/// `openidconnect::CsrfToken::new_random`: 16 random bytes in unpadded
/// URL-safe base64.
#[verifier::external_body]
pub(crate) fn fresh_state() -> (token: String)
    ensures
        is_random_token(token@),
{
    CsrfToken::new_random().secret().clone()
}

/// `openidconnect::Nonce::new_random`: 16 random bytes in unpadded URL-safe
/// base64.
#[verifier::external_body]
pub(crate) fn fresh_nonce() -> (token: String)
    ensures
        is_random_token(token@),
{
    Nonce::new_random().secret().clone()
}

/// `openidconnect::core::CoreClient::authorize_url`, with the scopes added
/// and the request turned into its URL. The client is built from the
/// metadata document as discovery would build it.
#[verifier::external_body]
pub(crate) fn build_authorization_url(
    metadata: &str,
    client_id: &str,
    redirect_url: &str,
    scopes: &Vec<String>,
    state: String,
    nonce: String,
) -> (url: String)
    requires
        metadata_accepted(metadata@),
        url_accepted(redirect_url@),
    ensures
        url@ == authorization_url(
            metadata@,
            client_id@,
            redirect_url@,
            scopes@.map_values(|s: String| s@),
            state@,
            nonce@,
        ),
{
    let metadata = from_str::<openidconnect::core::CoreProviderMetadata>(metadata).unwrap();
    let id = ClientId::new(client_id.to_owned());
    let redirect = RedirectUrl::new(redirect_url.to_owned()).unwrap();
    let client = openidconnect::core::CoreClient::from_provider_metadata(metadata, id, None)
        .set_redirect_uri(redirect);
    let flow = openidconnect::core::CoreAuthenticationFlow::AuthorizationCode;
    let request = client.authorize_url(flow, move || CsrfToken::new(state), move || Nonce::new(nonce));
    request.add_scopes(scopes.iter().cloned().map(Scope::new)).url().0.to_string()
}

/// `openidconnect::IdToken::claims` on a client built from the discovery
/// documents, with the verifier's clock set to `now` (seconds since the
/// epoch): checks signature, issuer, audience, expiry and nonce, and gives the
/// claim set of an accepted token as a JSON object, or the refusal in words.
#[verifier::external_body]
pub(crate) fn verify_id_token(
    metadata: &str,
    jwks: &str,
    client_id: &str,
    client_secret: &str,
    id_token: &str,
    nonce: &str,
    now: i64,
) -> (claims: Result<String, String>)
    requires
        metadata_accepted(metadata@),
        key_set_accepted(jwks@),
        0 <= now <= LATEST_CLOCK,
    ensures
        result_text(claims) == verified_claims(
            metadata@,
            jwks@,
            client_id@,
            client_secret@,
            id_token@,
            nonce@,
            now as int,
        ),
{
    let provider = from_str::<openidconnect::core::CoreProviderMetadata>(metadata).unwrap()
        .set_jwks(from_str(jwks).unwrap());
    let secret = Some(ClientSecret::new(client_secret.to_owned()));
    let client = openidconnect::core::CoreClient::from_provider_metadata(
        provider, ClientId::new(client_id.to_owned()), secret);
    let now = chrono::DateTime::from_timestamp(now, 0).unwrap();
    let verifier = client.id_token_verifier().set_time_fn(move || now);
    let token = openidconnect::core::CoreIdToken::from_str(id_token).map_err(|e| e.to_string())?;
    let claims = token.claims(&verifier, &Nonce::new(nonce.to_owned())).map_err(|e| e.to_string())?;
    serde_json::to_string(claims).map_err(|e| e.to_string())
}

/// `serde_json::Value::get` and `as_str` on a parsed document: the text of a
/// member of a JSON object, `None` where the document is no object, lacks the
/// member, or holds something other than a string there.
#[verifier::external_body]
pub(crate) fn read_text_member(document: &str, member: &str) -> (text: Option<String>)
    ensures
        text_of(text) == text_member(document@, member@),
{
    from_str::<serde_json::Value>(document).ok()?.get(member)?.as_str().map(str::to_owned)
}

/// `openidconnect::AccessTokenHash::from_token`, with the algorithm that
/// `IdToken::signing_alg` reads from the ID token's header.
#[verifier::external_body]
pub(crate) fn hash_access_token(id_token: &str, access_token: &str) -> (hash: Option<String>)
    ensures
        text_of(hash) == access_token_hash_of(id_token@, access_token@),
{
    let token = openidconnect::core::CoreIdToken::from_str(id_token).ok()?;
    let algorithm = token.signing_alg().ok()?;
    let access_token = AccessToken::new(access_token.to_owned());
    let hash = AccessTokenHash::from_token(&access_token, &algorithm).ok()?;
    Some(hash.to_string())
}

} // verus!
