//! What the sign-in routes answer.
//!
//! Each function here is the decision of one route: it takes what the request
//! brought and what the collaborators reported, changes the visitor's session,
//! and says what to answer. Reading the request, talking to the provider and
//! the storage, and writing the response are the caller's part.

use vstd::prelude::*;
use vstd::string::StrSliceExecFns;
use crate::auth::{
    step_for, AuthStepModel, Authenticator, BackendError, Credentials, Failure,
};
use crate::pending::{incomplete, taken, PendingModel};
use crate::text::text_of;
use crate::provider::is_random_token;
use crate::session::{Session, SessionModel};
use crate::user::User;

verus! {

/// The session key under which the return path of a login is kept.
pub const NEXT_URL_KEY: &'static str = "auth.next-url";

/// The session key under which the state token of a login is kept.
pub const CSRF_STATE_KEY: &'static str = "auth.csrf-state";

/// The session key under which the nonce of a login is kept.
pub const NONCE_KEY: &'static str = "auth.nonce";

/// The status of a request that was served.
pub const OK: u16 = 200;

/// The status of a request that is malformed.
pub const BAD_REQUEST: u16 = 400;

/// The status of a request that lacks a verified identity.
pub const UNAUTHORIZED: u16 = 401;

/// The status of a request for something that is not there.
pub const NOT_FOUND: u16 = 404;

/// The status of a request that failed on the server's side.
pub const INTERNAL_SERVER_ERROR: u16 = 500;

/// The query of the provider's redirect back to the service.
#[derive(PartialEq, Eq)]
pub struct AuthResponse {
    pub code: String,
    pub state: String,
}

/// The query of a login request: where to go after the login.
#[derive(Debug, PartialEq, Eq)]
pub struct NextUrl {
    pub next: Option<String>,
}

/// What a route answers.
#[derive(Debug, PartialEq, Eq)]
pub enum Reply {
    /// A redirect to the location.
    Redirect(String),
    /// A status code with a body of text.
    Status(u16, String),
}

/// A `Reply` as plain values.
pub enum ReplyModel {
    Redirect(Seq<char>),
    Status(int, Seq<char>),
}

impl View for Reply {
    type V = ReplyModel;

    open spec fn view(&self) -> ReplyModel {
        match *self {
            Reply::Redirect(location) => ReplyModel::Redirect(location@),
            Reply::Status(code, body) => ReplyModel::Status(code as int, body@),
        }
    }
}

/// Whether a path stays on this site: it begins with one slash, and neither a
/// second slash nor a backslash follows, so no browser reads a host into it.
pub open spec fn is_local_path(path: Seq<char>) -> bool {
    &&& path.len() >= 1
    &&& path[0] == '/'
    &&& path.len() >= 2 ==> path[1] != '/' && path[1] != '\\'
}

/// The return path that a login remembers: the requested one if it stays on
/// this site, none otherwise.
pub open spec fn kept_path(next: Option<Seq<char>>) -> Option<Seq<char>> {
    match next {
        Some(path) => if is_local_path(path) {
            Some(path)
        } else {
            None
        },
        None => None,
    }
}

/// Filters the return path of a login request.
pub fn return_path(next: Option<String>) -> (kept: Option<String>)
    ensures
        text_of(kept) == kept_path(text_of(next)),
        kept is Some ==> kept == next,
{
    match next {
        Some(path) => {
            let text = path.as_str();
            let length = text.unicode_len();
            let local = length >= 1 && text.get_char(0) == '/' && (length < 2 || (text.get_char(1)
                != '/' && text.get_char(1) != '\\'));
            if local {
                Some(path)
            } else {
                None
            }
        },
        None => None,
    }
}

/// The session after a login began under `state` and `nonce`: the new
/// attempt is the only one that waits, with the return path of this login or
/// none. An attempt that waited before is gone.
pub open spec fn login_begun(
    session: SessionModel,
    state: Seq<char>,
    nonce: Seq<char>,
    next: Option<Seq<char>>,
) -> SessionModel {
    SessionModel {
        pending: Map::<Seq<char>, PendingModel>::empty().insert(
            state,
            PendingModel { nonce: Some(nonce), return_path: kept_path(next) },
        ),
        binding: session.binding,
    }
}

/// Begins a login with the tokens and the URL at hand: remembers the attempt
/// in the session and redirects to the provider.
pub fn login_with(session: &mut Session, login: (String, String, String), query: NextUrl) -> (reply:
    Reply)
    ensures
        reply@ == ReplyModel::Redirect(login.0@),
        final(session)@ == login_begun(old(session)@, login.1@, login.2@, text_of(query.next)),
{
    let (url, state, nonce) = login;
    session.begin(state, nonce, return_path(query.next));
    Reply::Redirect(url)
}

/// `GET /login`: begins a login. The session remembers a fresh state token
/// with a fresh nonce and the return path, and the visitor is sent to the
/// provider's authorization URL for exactly these two tokens.
pub fn login(authenticator: &Authenticator, session: &mut Session, query: NextUrl) -> (reply:
    Reply)
    ensures
        exists|state: Seq<char>, nonce: Seq<char>|
            {
                &&& is_random_token(state)
                &&& is_random_token(nonce)
                &&& reply@ == ReplyModel::Redirect(#[trigger] authenticator.login_url(state, nonce))
                &&& final(session)@ == login_begun(
                    old(session)@,
                    state,
                    nonce,
                    text_of(query.next),
                )
            },
{
    let login = authenticator.authorize_url();
    let ghost state = login.1@;
    let ghost nonce = login.2@;
    let reply = login_with(session, login, query);
    assert(reply@ == ReplyModel::Redirect(authenticator.login_url(state, nonce)));
    reply
}

/// What the callback route does next.
#[derive(PartialEq, Eq)]
pub enum CallbackStep {
    /// Answer at once.
    Reply(Reply),
    /// Authenticate with these credentials, and keep the return path for the
    /// redirect after the login.
    Authenticate { creds: Credentials, return_path: Option<String> },
}

/// A `CallbackStep` as plain values.
pub enum CallbackModel {
    Reply(ReplyModel),
    Authenticate {
        code: Seq<char>,
        nonce: Seq<char>,
        old_state: Seq<char>,
        new_state: Seq<char>,
        return_path: Option<Seq<char>>,
    },
}

impl View for CallbackStep {
    type V = CallbackModel;

    open spec fn view(&self) -> CallbackModel {
        match *self {
            CallbackStep::Reply(reply) => CallbackModel::Reply(reply@),
            CallbackStep::Authenticate { creds, return_path } => CallbackModel::Authenticate {
                code: creds.code@,
                nonce: creds.nonce@,
                old_state: creds.old_state@,
                new_state: creds.new_state@,
                return_path: text_of(return_path),
            },
        }
    }
}

/// The answer to a callback where the session holds no login attempt.
pub open spec fn missing_state() -> ReplyModel {
    ReplyModel::Status(BAD_REQUEST as int, "missing csrf state"@)
}

/// The answer to a callback where the session holds a state token that has
/// lost its nonce.
pub open spec fn missing_nonce() -> ReplyModel {
    ReplyModel::Status(BAD_REQUEST as int, "missing nonce"@)
}

/// The answer to a callback under a state token that no login attempt of the
/// session waits under.
pub open spec fn invalid_state() -> ReplyModel {
    ReplyModel::Status(UNAUTHORIZED as int, "invalid csrf state"@)
}

/// A callback on plain values: the session afterwards, and what to do next.
/// The checks come in this order. A session without a login attempt is told
/// so. A session whose attempt has lost its nonce is told so, whatever state
/// token the callback presents: no credentials are handed out. A callback
/// under a state token that no attempt waits under is unauthenticated. In
/// these three cases the session stays as it is, and the answer is no error.
/// Otherwise the attempt under the state token is consumed, and the
/// credentials are the code of the callback with the nonce and the state
/// token of the attempt.
pub open spec fn answered(session: SessionModel, code: Seq<char>, state: Seq<char>) -> (
    SessionModel,
    CallbackModel,
) {
    if session.pending =~= Map::<Seq<char>, PendingModel>::empty() {
        (session, CallbackModel::Reply(missing_state()))
    } else if incomplete(session.pending) {
        (session, CallbackModel::Reply(missing_nonce()))
    } else {
        match taken(session.pending, state).1 {
            Some(PendingModel { nonce: Some(nonce), return_path }) => (
                SessionModel { pending: session.pending.remove(state), binding: session.binding },
                CallbackModel::Authenticate {
                    code,
                    nonce,
                    old_state: state,
                    new_state: state,
                    return_path,
                },
            ),
            _ => (session, CallbackModel::Reply(invalid_state())),
        }
    }
}

/// `GET /callback`, first part: checks the login attempt of the session,
/// consumes it if it waits under the state token of the query, and says what
/// to do next.
pub fn callback(session: &mut Session, query: AuthResponse) -> (step: CallbackStep)
    ensures
        final(session)@ == answered(old(session)@, query.code@, query.state@).0,
        step@ == answered(old(session)@, query.code@, query.state@).1,
{
    if !session.has_pending() {
        return CallbackStep::Reply(Reply::Status(BAD_REQUEST, "missing csrf state".to_owned()));
    }
    if session.pending().lacks_nonce() {
        return CallbackStep::Reply(Reply::Status(BAD_REQUEST, "missing nonce".to_owned()));
    }
    let ghost before = session@;
    let pending = match session.take(query.state.as_str()) {
        Some(pending) => pending,
        None => {
            return CallbackStep::Reply(unmatched());
        },
    };
    assert(before.pending.contains_key(query.state@));
    assert(before.pending[query.state@].nonce is Some);
    match pending.nonce {
        Some(nonce) => CallbackStep::Authenticate {
            creds: Credentials {
                code: query.code,
                nonce,
                old_state: pending.csrf_state,
                new_state: query.state,
            },
            return_path: pending.return_path,
        },
        None => CallbackStep::Reply(unmatched()),
    }
}

fn unmatched() -> (reply: Reply)
    ensures
        reply@ == invalid_state(),
{
    Reply::Status(UNAUTHORIZED, "invalid csrf state".to_owned())
}

/// A callback under a state token that no login attempt of the session waits
/// under gets a client-error status, and the session stays as it is.
pub proof fn law_unknown_state(session: SessionModel, code: Seq<char>, state: Seq<char>)
    requires
        !session.pending.contains_key(state),
    ensures
        answered(session, code, state).0 == session,
        answered(session, code, state).1 matches CallbackModel::Reply(
            ReplyModel::Status(status, _),
        ) && 400 <= status < 500,
{
}

/// A session that holds a state token without its nonce answers every
/// callback with "missing nonce": no credentials are handed out, whatever
/// the callback presents, and the session stays as it is.
pub proof fn law_missing_nonce(
    session: SessionModel,
    stored: Seq<char>,
    code: Seq<char>,
    state: Seq<char>,
)
    requires
        session.pending.contains_key(stored),
        session.pending[stored].nonce is None,
    ensures
        answered(session, code, state) == (session, CallbackModel::Reply(missing_nonce())),
{
    assert(!(session.pending =~= Map::<Seq<char>, PendingModel>::empty()));
}

/// A state token works once: whatever the first callback under it came to,
/// a second callback under the same token is answered as one without a login
/// attempt.
pub proof fn law_replayed_state(
    session: SessionModel,
    code: Seq<char>,
    replayed_code: Seq<char>,
    state: Seq<char>,
)
    ensures
        answered(answered(session, code, state).0, replayed_code, state).1 is Reply,
        answered(answered(session, code, state).0, replayed_code, state).0 == answered(
            session,
            code,
            state,
        ).0,
{
    let after = answered(session, code, state).0;
    if answered(session, code, state).1 is Authenticate {
        assert(!after.pending.contains_key(state));
        assert forall|key: Seq<char>| after.pending.contains_key(key) implies (
        #[trigger] after.pending[key]).nonce is Some by {
            assert(session.pending.contains_key(key));
        }
    }
}

/// A new login takes the place of whatever waited in the session: the new
/// attempt is the only one, an older state token no longer finds anything,
/// and an older return path is gone.
pub proof fn law_login_supersedes(
    session: SessionModel,
    state: Seq<char>,
    nonce: Seq<char>,
    next: Option<Seq<char>>,
    older: Seq<char>,
    code: Seq<char>,
)
    requires
        older != state,
    ensures
        login_begun(session, state, nonce, next).pending == Map::<
            Seq<char>,
            PendingModel,
        >::empty().insert(state, PendingModel { nonce: Some(nonce), return_path: kept_path(next) }),
        !login_begun(session, state, nonce, next).pending.contains_key(older),
        login_begun(session, state, nonce, next).pending[state].return_path == kept_path(next),
        answered(login_begun(session, state, nonce, next), code, older).1 == CallbackModel::Reply(
            invalid_state(),
        ),
{
    let begun = login_begun(session, state, nonce, next);
    assert(begun.pending.contains_key(state));
    assert(!(begun.pending =~= Map::<Seq<char>, PendingModel>::empty()));
    assert(!incomplete(begun.pending));
}

/// The callback under the state token of a login that just began
/// authenticates with the nonce of that login and with matching state tokens,
/// keeps the return path of that login if the path stays on this site, and
/// leaves no attempt behind.
pub proof fn law_login_then_callback(
    session: SessionModel,
    state: Seq<char>,
    nonce: Seq<char>,
    next: Option<Seq<char>>,
    code: Seq<char>,
)
    ensures
        answered(login_begun(session, state, nonce, next), code, state).1
            == (CallbackModel::Authenticate {
            code,
            nonce,
            old_state: state,
            new_state: state,
            return_path: kept_path(next),
        }),
        answered(login_begun(session, state, nonce, next), code, state).0.binding
            == session.binding,
        answered(login_begun(session, state, nonce, next), code, state).0.pending == Map::<
            Seq<char>,
            PendingModel,
        >::empty(),
{
    let begun = login_begun(session, state, nonce, next);
    assert(begun.pending.contains_key(state));
    assert(!(begun.pending =~= Map::<Seq<char>, PendingModel>::empty()));
    assert(!incomplete(begun.pending));
    assert(begun.pending.remove(state) =~= Map::<Seq<char>, PendingModel>::empty());
}

/// Credentials that a callback hands on always pass the comparison of state
/// tokens: both are the token of the callback, and the nonce is the one that
/// the session held under it.
pub proof fn law_callback_credentials(
    session: SessionModel,
    code: Seq<char>,
    state: Seq<char>,
    nonce: Seq<char>,
)
    requires
        session.pending.contains_key(state),
        session.pending[state].nonce == Some(nonce),
        !incomplete(session.pending),
    ensures
        answered(session, code, state).1 == (CallbackModel::Authenticate {
            code,
            nonce,
            old_state: state,
            new_state: state,
            return_path: session.pending[state].return_path,
        }),
        step_for(code, nonce, state, state) == (AuthStepModel::Exchange { code, nonce }),
{
    assert(!(session.pending =~= Map::<Seq<char>, PendingModel>::empty()));
}

/// The answer to a login that failed. A verdict on the provider's answer is
/// a plain refusal that does not say which check failed; an outage of the
/// provider, of the storage or of the clock is a server error in the error's
/// own words.
pub open spec fn refusal(failure: Failure) -> ReplyModel {
    if failure.is_rejection() {
        ReplyModel::Status(UNAUTHORIZED as int, "authentication rejected"@)
    } else {
        ReplyModel::Status(INTERNAL_SERVER_ERROR as int, failure.message_text())
    }
}

/// The answer to a login that failed.
pub fn rejection(error: &BackendError) -> (reply: Reply)
    ensures
        reply@ == refusal(error@),
{
    if error.is_rejection() {
        Reply::Status(UNAUTHORIZED, "authentication rejected".to_owned())
    } else {
        Reply::Status(INTERNAL_SERVER_ERROR, error.message())
    }
}

/// `GET /callback`, second part: the user of a finished authentication, or the
/// answer to give where there is none.
pub fn identity(outcome: Result<Option<User>, BackendError>) -> (user: Result<User, Reply>)
    ensures
        match outcome {
            Ok(Some(found)) => user == Ok::<User, Reply>(found),
            Ok(None) => user matches Err(reply) && reply@ == ReplyModel::Status(
                UNAUTHORIZED as int,
                "invalid csrf state"@,
            ),
            Err(error) => user matches Err(reply) && reply@ == refusal(error@),
        },
{
    match outcome {
        Ok(Some(found)) => Ok(found),
        Ok(None) => Err(unmatched()),
        Err(error) => Err(rejection(&error)),
    }
}

/// The place to go after a login: the return path, or the root.
pub open spec fn landing(return_path: Option<Seq<char>>) -> Seq<char> {
    match return_path {
        Some(path) => path,
        None => "/"@,
    }
}

/// `GET /callback`, last part: after the session was asked to bind the user.
pub fn welcome(bound: bool, return_path: Option<String>) -> (reply: Reply)
    ensures
        reply@ == if bound {
            ReplyModel::Redirect(landing(text_of(return_path)))
        } else {
            ReplyModel::Status(INTERNAL_SERVER_ERROR as int, "login failed"@)
        },
{
    if !bound {
        return Reply::Status(INTERNAL_SERVER_ERROR, "login failed".to_owned());
    }
    match return_path {
        Some(path) => Reply::Redirect(path),
        None => Reply::Redirect("/".to_owned()),
    }
}

/// `GET /logout`: after the session was asked to forget the user.
pub fn logout(cleared: bool) -> (reply: Reply)
    ensures
        reply@ == if cleared {
            ReplyModel::Redirect("/"@)
        } else {
            ReplyModel::Status(INTERNAL_SERVER_ERROR as int, Seq::<char>::empty())
        },
{
    if cleared {
        Reply::Redirect("/".to_owned())
    } else {
        Reply::Status(INTERNAL_SERVER_ERROR, String::new())
    }
}

/// `GET /userinfo`: the user that the session is bound to, in words.
pub fn userinfo(user: Option<&User>) -> (reply: Reply)
    ensures
        reply@ == match user {
            Some(user) => ReplyModel::Status(OK as int, user.description()),
            None => ReplyModel::Status(INTERNAL_SERVER_ERROR as int, "no user"@),
        },
{
    match user {
        Some(user) => Reply::Status(OK, user.describe()),
        None => Reply::Status(INTERNAL_SERVER_ERROR, "no user".to_owned()),
    }
}

} // verus!
