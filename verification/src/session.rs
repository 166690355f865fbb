use vstd::prelude::*;

verus! {

/// HTTP status of a successful request.
pub const OK: u16 = 200;

/// HTTP status of a request that needs a logged-in user and has none, or
/// whose credentials were refused.
pub const UNAUTHORIZED: u16 = 401;

/// HTTP status of a request that failed inside the service.
pub const INTERNAL_SERVER_ERROR: u16 = 500;

/// The body of a request that reached a protected page with a user.
pub open spec fn protected_body() -> Seq<char> {
    "protected"@
}

/// What a login handler does once the credentials have been checked.
#[derive(Debug, Clone, PartialEq, Eq)]
pub enum LoginStep<U> {
    /// Open a session for this user.
    LogIn(U),
    /// Answer with this status and stop.
    Reply(u16),
}

/// The decision on the outcome of checking credentials: a found user is
/// logged in, unknown credentials are answered with 401 and a failure of the
/// check with 500.
pub open spec fn spec_after_authenticate<U, E>(outcome: Result<Option<U>, E>) -> LoginStep<U> {
    match outcome {
        Ok(Some(user)) => LoginStep::LogIn(user),
        Ok(None) => LoginStep::Reply(UNAUTHORIZED),
        Err(_) => LoginStep::Reply(INTERNAL_SERVER_ERROR),
    }
}

/// The status of a login once the session was asked to log the user in:
/// 200 when it did, 500 when it failed.
pub open spec fn spec_after_login<E>(outcome: Result<(), E>) -> u16 {
    match outcome {
        Ok(()) => OK,
        Err(_) => INTERNAL_SERVER_ERROR,
    }
}

/// Decides what a login handler does with the outcome of checking credentials.
pub fn after_authenticate<U, E>(outcome: Result<Option<U>, E>) -> (res: LoginStep<U>)
    ensures
        res == spec_after_authenticate(outcome),
{
    match outcome {
        Ok(Some(user)) => LoginStep::LogIn(user),
        Ok(None) => LoginStep::Reply(UNAUTHORIZED),
        Err(_) => LoginStep::Reply(INTERNAL_SERVER_ERROR),
    }
}

/// The status that a login handler answers once the session was asked to log
/// the user in.
pub fn after_login<E>(outcome: Result<(), E>) -> (res: u16)
    ensures
        res == spec_after_login(outcome),
{
    match outcome {
        Ok(()) => OK,
        Err(_) => INTERNAL_SERVER_ERROR,
    }
}

/// The status of a logout: 200 when the session let the user go, 500 when it failed.
pub fn logout_status<T, E>(outcome: &Result<T, E>) -> (res: u16)
    ensures
        outcome is Ok ==> res == OK,
        outcome is Err ==> res == INTERNAL_SERVER_ERROR,
{
    match outcome {
        Ok(_) => OK,
        Err(_) => INTERNAL_SERVER_ERROR,
    }
}

/// The user of a request that needs one; without a user the request is
/// answered with 401 and an empty body.
pub fn require_user<U>(user: Option<U>) -> (res: Result<U, (u16, String)>)
    ensures
        user matches Some(u) ==> res == Ok::<U, (u16, String)>(u),
        user is None ==> res is Err && res->Err_0.0 == UNAUTHORIZED && res->Err_0.1@.len() == 0,
{
    match user {
        Some(u) => Ok(u),
        None => Err((UNAUTHORIZED, String::new())),
    }
}

/// The reply of a protected page: with a user, 200 and the body `protected`;
/// without one, `status_without_user` and an empty body.
pub fn protected_reply<U>(user: &Option<U>, status_without_user: u16) -> (res: (u16, String))
    ensures
        user is Some ==> res.0 == OK && res.1@ == protected_body(),
        user is None ==> res.0 == status_without_user && res.1@.len() == 0,
{
    match user {
        Some(_) => {
            let body = String::from_str("protected");
            proof {
                reveal_strlit("protected");
            }
            (OK, body)
        },
        None => (status_without_user, String::new()),
    }
}

/// The reply to a request that failed inside the service: 500 and the
/// failure's message.
pub fn internal_error(message: String) -> (res: (u16, String))
    ensures
        res.0 == INTERNAL_SERVER_ERROR,
        res.1 == message,
{
    (INTERNAL_SERVER_ERROR, message)
}

/// A login succeeds (status 200) exactly when the credentials named a user and
/// the session logged that user in; every other way it ends with 401 (unknown
/// credentials) or 500 (a failure).
pub proof fn lemma_login_succeeds_only_with_user_and_session<U, E, F>(
    authenticated: Result<Option<U>, E>,
    logged_in: Result<(), F>,
)
    ensures
        ({
            let status = match spec_after_authenticate(authenticated) {
                LoginStep::LogIn(_) => spec_after_login(logged_in),
                LoginStep::Reply(code) => code,
            };
            &&& (status == OK) <==> (authenticated matches Ok(Some(_)) && logged_in is Ok)
            &&& (status == UNAUTHORIZED) <==> (authenticated matches Ok(None))
            &&& status == OK || status == UNAUTHORIZED || status == INTERNAL_SERVER_ERROR
        }),
{
}

} // verus!
