//! The session: logging in, the bearer token and its expiry.

use crate::app::{text_of, App, AppView, LoginField, Page};
use crate::clock::unix_now;
use crate::error::{error_text, ClientError};
use crate::json::{decode_string_map, json_string_map};
use crate::text::{decimal_i64, joined, parse_i64};
use crate::transport::{Reply, ReplyView, Request, RequestView};
use vstd::prelude::*;

verus! {

/// The login request of the state `state`: the typed credentials, posted to
/// `/login` under the base address.
pub open spec fn login_request(state: AppView) -> RequestView {
    RequestView::LogIn {
        url: state.url + "/login"@,
        username: state.login,
        password: state.password,
    }
}

/// A token that lapses after the second `token_exp` has lapsed at the second
/// `now`.
pub open spec fn lapsed(token_exp: i64, now: i64) -> bool {
    token_exp < now
}

/// What a decoded login response amounts to at the second `now`: the token
/// and the second after which it lapses, or the error.
///
/// `accepted` tells whether the status was in the 200s, `token` and
/// `lifetime` are the members `token` and `jwt_exp_seconds` of the body. A
/// response that was not accepted or carries no token is a rejection. A
/// token without a lifetime never lapses. A lifetime that is no decimal
/// number, or that leads past the last second that 64 bits can count, is a
/// breach of the protocol.
pub open spec fn login_result(
    accepted: bool,
    token: Option<Seq<char>>,
    lifetime: Option<Seq<char>>,
    now: i64,
) -> Result<(Seq<char>, i64), ClientError> {
    if !accepted || token is None {
        Err(ClientError::WrongCredentials)
    } else {
        match lifetime {
            None => Ok((token->0, i64::MAX)),
            Some(text) => match decimal_i64(text) {
                Some(seconds) => if i64::MIN <= now + seconds <= i64::MAX {
                    Ok((token->0, (now + seconds) as i64))
                } else {
                    Err(ClientError::ProtocolError)
                },
                None => Err(ClientError::ProtocolError),
            },
        }
    }
}

/// The member `key` of a decoded JSON object, if it has one.
pub open spec fn member(fields: Map<Seq<char>, Seq<char>>, key: Seq<char>) -> Option<Seq<char>> {
    if fields.contains_key(key) {
        Some(fields[key])
    } else {
        None
    }
}

/// What the reply to a login request amounts to at the second `now`. A
/// request that failed, or a body that is no JSON object of strings, is a
/// connection error.
pub open spec fn login_reply_result(reply: ReplyView, now: i64) -> Result<
    (Seq<char>, i64),
    ClientError,
> {
    match reply {
        ReplyView::Failed => Err(ClientError::ConnectionError),
        ReplyView::Received { success, body } => match json_string_map(body) {
            None => Err(ClientError::ConnectionError),
            Some(fields) => login_result(
                success,
                member(fields, "token"@),
                member(fields, "jwt_exp_seconds"@),
                now,
            ),
        },
    }
}

/// The state after a login attempt that came to `result`: on success the
/// session is open and no message is left; on failure only the message
/// changes.
pub open spec fn after_login(
    pre: AppView,
    result: Result<(Seq<char>, i64), ClientError>,
) -> AppView {
    match result {
        Ok((token, token_exp)) => AppView {
            page: Page::Main,
            token,
            token_exp,
            login_error: None,
            ..pre
        },
        Err(error) => AppView { login_error: Some(error_text(error)), ..pre },
    }
}

/// The state after the session was closed because its token lapsed: the
/// login form with empty credentials, no token, and a message that says why.
pub open spec fn logged_out(pre: AppView) -> AppView {
    AppView {
        page: Page::Login,
        login: Seq::empty(),
        password: Seq::empty(),
        token: Seq::empty(),
        login_error: Some("JWT expired, log in again"@),
        ..pre
    }
}

/// The outcome of a login attempt without what it carries.
pub open spec fn verdict(result: Result<(Seq<char>, i64), ClientError>) -> Result<(), ClientError> {
    match result {
        Ok(_) => Ok(()),
        Err(error) => Err(error),
    }
}

/// The request that submits the typed credentials.
pub fn log_in_request(app: &App) -> (request: Request)
    ensures
        request@ == login_request(app@),
{
    Request::LogIn {
        url: joined(app.server.url.as_str(), "/login"),
        username: app.login_field.login.clone(),
        password: app.login_field.password.clone(),
    }
}

/// Whether a token that lapses after the second `token_exp` has lapsed at
/// the second `now`.
pub fn expired_at(token_exp: i64, now: i64) -> (expired: bool)
    ensures
        expired == lapsed(token_exp, now),
        expired <==> now > token_exp,
{
    token_exp < now
}

/// Whether a token that lapses after the second `token_exp` has lapsed by
/// the system clock. Whatever the clock says, a token that never lapses is
/// not reported as lapsed.
pub fn is_token_expired(token_exp: i64) -> (expired: bool)
    ensures
        exists|now: i64| expired == #[trigger] lapsed(token_exp, now),
        token_exp == i64::MAX ==> !expired,
{
    let now = unix_now();
    let expired = expired_at(token_exp, now);
    assert(expired == lapsed(token_exp, now));
    expired
}

/// Empties both fields of the login form.
pub fn clear_login_field(login_field: &mut LoginField)
    ensures
        final(login_field).login@ == Seq::<char>::empty(),
        final(login_field).password@ == Seq::<char>::empty(),
{
    login_field.login = String::new();
    login_field.password = String::new();
}

/// Closes a session whose token has lapsed.
pub fn log_out(app: &mut App)
    ensures
        final(app)@ == logged_out(old(app)@),
        final(app)@.wf(),
{
    app.page = Page::Login;
    clear_login_field(&mut app.login_field);
    app.token = String::new();
    app.login_error = Some("JWT expired, log in again".to_owned());
}

/// Ends a login attempt whose response was decoded: `accepted` tells
/// whether the status was in the 200s, `token` and `lifetime` are the
/// members `token` and `jwt_exp_seconds` of the body, `now` is the second at
/// which the response was seen.
pub fn finish_login(
    app: &mut App,
    accepted: bool,
    token: Option<String>,
    lifetime: Option<String>,
    now: i64,
) -> (outcome: Result<(), ClientError>)
    ensures
        final(app)@ == after_login(
            old(app)@,
            login_result(accepted, text_of(token), text_of(lifetime), now),
        ),
        outcome == verdict(login_result(accepted, text_of(token), text_of(lifetime), now)),
        old(app)@.wf() ==> final(app)@.wf(),
{
    let token = match token {
        Some(token) if accepted => token,
        _ => {
            return fail_login(app, ClientError::WrongCredentials);
        },
    };
    let token_exp = match lifetime {
        None => i64::MAX,
        Some(text) => match parse_i64(text.as_str()) {
            None => {
                return fail_login(app, ClientError::ProtocolError);
            },
            Some(seconds) => match now.checked_add(seconds) {
                None => {
                    return fail_login(app, ClientError::ProtocolError);
                },
                Some(token_exp) => token_exp,
            },
        },
    };
    app.token = token;
    app.token_exp = token_exp;
    app.page = Page::Main;
    app.login_error = None;
    Ok(())
}

/// Leaves the message of `error` on the login form.
fn fail_login(app: &mut App, error: ClientError) -> (outcome: Result<(), ClientError>)
    ensures
        final(app)@ == after_login(old(app)@, Err(error)),
        outcome == Err::<(), ClientError>(error),
{
    app.login_error = Some(error.message());
    Err(error)
}

/// Ends a login attempt with the reply to its request, seen at the second
/// `now`.
pub fn log_in_response(app: &mut App, reply: &Reply, now: i64) -> (outcome: Result<(), ClientError>)
    ensures
        final(app)@ == after_login(old(app)@, login_reply_result(reply@, now)),
        outcome == verdict(login_reply_result(reply@, now)),
        old(app)@.wf() ==> final(app)@.wf(),
{
    match reply {
        Reply::Failed => fail_login(app, ClientError::ConnectionError),
        Reply::Received { success, body } => match decode_string_map(body.as_slice()) {
            Err(_) => fail_login(app, ClientError::ConnectionError),
            Ok(fields) => {
                let ghost decoded = fields@.map_values(|value: String| value@);
                let token = match fields.get("token") {
                    Some(text) => Some(text.clone()),
                    None => None,
                };
                let lifetime = match fields.get("jwt_exp_seconds") {
                    Some(text) => Some(text.clone()),
                    None => None,
                };
                assert(text_of(token) == member(decoded, "token"@));
                assert(text_of(lifetime) == member(decoded, "jwt_exp_seconds"@));
                finish_login(app, *success, token, lifetime, now)
            },
        },
    }
}

} // verus!
