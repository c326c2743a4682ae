//! How the HTTP handlers answer: the status codes and bodies chosen from the
//! outcome of their database work.
use vstd::prelude::*;
use vstd::string::*;
use crate::conduit::DbError;
use crate::models::{opt_view, ConfirmedUser, Token, User};
use crate::text::push_str;
use crate::auth::token::{encode_token, jwt_hs256, unix_now};

verus! {

/// 200 OK.
pub const OK: u16 = 200;
/// 400 Bad Request, also the answer to a body that is not the expected JSON.
pub const BAD_REQUEST: u16 = 400;
/// 401 Unauthorized.
pub const UNAUTHORIZED: u16 = 401;
/// 403 Forbidden.
pub const FORBIDDEN: u16 = 403;
/// 500 Internal Server Error.
pub const INTERNAL_SERVER_ERROR: u16 = 500;

/// How long a session token issued at sign-in stays valid, in seconds.
pub const SESSION_SECONDS: u64 = 3600;

/// How a handler answers.
pub enum Reply<T> {
    /// 200 with this value as the JSON body.
    Json(T),
    /// This status with an empty body.
    Empty(u16),
    /// A handler error with this status.
    Fail(u16),
}

/// The body of `GET /api/me`.
pub struct UserResponse {
    pub user: User,
}

/// The body of `POST /api/rsvp`.
pub struct RsvpResponse {
    pub confirmed_user: ConfirmedUser,
}

/// The body of a completed sign-in when no client address is configured.
pub struct AuthenticatedUser {
    pub user: User,
    pub token: String,
}

/// The status a failed lookup or write is answered with: a database error is
/// the server's fault, a missing row means the caller is not entitled, and
/// anything else is a bad request.
pub open spec fn db_error_status(e: &DbError) -> u16 {
    match e {
        DbError::DatabaseError(_) => 500,
        DbError::NotFound => 401,
        DbError::Other(_) => 400,
    }
}

/// The status a failed lookup or write is answered with.
pub fn status_for_db_error(e: &DbError) -> (r: u16)
    ensures
        r == db_error_status(e),
{
    match e {
        DbError::DatabaseError(_) => INTERNAL_SERVER_ERROR,
        DbError::NotFound => UNAUTHORIZED,
        DbError::Other(_) => BAD_REQUEST,
    }
}

/// The answer of `GET /api/me` once the guest was looked up by the e-mail
/// address of the token: the guest, 401 when there is none, and a failure
/// otherwise.
pub fn me_reply(found: Result<User, DbError>) -> (r: Reply<UserResponse>)
    ensures
        match found {
            Ok(u) => r == Reply::<UserResponse>::Json(UserResponse { user: u }),
            Err(DbError::NotFound) => r == Reply::<UserResponse>::Empty(401),
            Err(_) => r == Reply::<UserResponse>::Fail(500),
        },
{
    match found {
        Ok(u) => Reply::Json(UserResponse { user: u }),
        Err(DbError::NotFound) => Reply::Empty(UNAUTHORIZED),
        Err(_) => Reply::Fail(INTERNAL_SERVER_ERROR),
    }
}

/// The answer to an invitation token lookup once the token was looked up: an empty
/// 200 when it exists, the failure's status otherwise.
pub fn invite_token_reply(found: Result<Token, DbError>) -> (r: Reply<()>)
    ensures
        match found {
            Ok(_) => r == Reply::<()>::Empty(200),
            Err(e) => r == Reply::<()>::Fail(db_error_status(&e)),
        },
{
    match found {
        Ok(_) => Reply::Empty(OK),
        Err(e) => Reply::Fail(status_for_db_error(&e)),
    }
}

/// The answer of `POST /api/rsvp` once the RSVP was recorded: the stored RSVP,
/// or the failure's status.
pub fn rsvp_reply(recorded: Result<ConfirmedUser, DbError>) -> (r: Reply<RsvpResponse>)
    ensures
        match recorded {
            Ok(c) => r == Reply::<RsvpResponse>::Json(RsvpResponse { confirmed_user: c }),
            Err(e) => r == Reply::<RsvpResponse>::Fail(db_error_status(&e)),
        },
{
    match recorded {
        Ok(c) => Reply::Json(RsvpResponse { confirmed_user: c }),
        Err(e) => Reply::Fail(status_for_db_error(&e)),
    }
}

/// How a completed sign-in is answered.
pub enum LoginReply {
    /// A temporary redirect to this address.
    Redirect(String),
    /// 200 with the guest and the session token as JSON.
    Json(AuthenticatedUser),
}

/// The client address with the session token appended as its query.
pub open spec fn redirect_with_token(client_url: Seq<char>, token: Seq<char>) -> Seq<char> {
    client_url + "?token="@ + token
}

/// The redirect carries the whole token: the client address, `?token=` and
/// every character of the token, so the token can be read back from it.
pub proof fn lemma_redirect_carries_whole_token(client_url: Seq<char>, token: Seq<char>)
    ensures
        redirect_with_token(client_url, token) == client_url + "?token="@ + token,
        redirect_with_token(client_url, token).len() == client_url.len() + "?token="@.len() + token.len(),
        redirect_with_token(client_url, token).subrange(
            (client_url.len() + "?token="@.len()) as int,
            redirect_with_token(client_url, token).len() as int,
        ) == token,
{
    let to = client_url + "?token="@ + token;
    assert(to.subrange((client_url.len() + "?token="@.len()) as int, to.len() as int) =~= token);
}

/// The answer to a completed sign-in: when a client address is configured the
/// guest is sent there with the token, otherwise the guest and the token are
/// returned.
pub fn login_reply(client_url: Option<String>, user: User, token: String) -> (r: LoginReply)
    ensures
        match client_url {
            Some(u) => r matches LoginReply::Redirect(to) && to@ == redirect_with_token(
                u@,
                token@,
            ),
            None => r == LoginReply::Json(AuthenticatedUser { user, token }),
        },
{
    match client_url {
        Some(u) => {
            let mut to = u;
            push_str(&mut to, "?token=");
            push_str(&mut to, token.as_str());
            LoginReply::Redirect(to)
        },
        None => LoginReply::Json(AuthenticatedUser { user, token }),
    }
}

/// `reply` is how `login_reply` delivers `token` to `user`: a redirect to
/// the client address with the token, or the guest and the token.
pub open spec fn delivers(client_url: Option<Seq<char>>, user: User, token: Seq<char>, reply: LoginReply) -> bool {
    match client_url {
        Some(u) => reply matches LoginReply::Redirect(to) && to@ == redirect_with_token(u, token),
        None => reply matches LoginReply::Json(a) && a.user == user && a.token@ == token,
    }
}

/// `reply` signs `user` in at the moment `now`: it delivers the token for
/// the guest's e-mail address that expires an hour after `now`, signed with
/// `secret`.
pub open spec fn signs_in_at(
    client_url: Option<Seq<char>>,
    user: User,
    secret: Seq<u8>,
    now: u64,
    reply: LoginReply,
) -> bool {
    &&& now + SESSION_SECONDS <= u64::MAX
    &&& jwt_hs256(user.email@, (now + SESSION_SECONDS) as u64, secret) matches Some(token)
        && delivers(client_url, user, token, reply)
}

/// The answer to a guest who signed in at the moment `now` (seconds since
/// the Unix epoch): a session token for the guest's e-mail address that
/// expires an hour later, signed with `secret` and delivered as
/// `login_reply` does; `None` when that expiry does not fit in 64 bits.
pub fn sign_in_reply_at(client_url: Option<String>, user: User, secret: &[u8], now: u64) -> (r: Option<LoginReply>)
    ensures
        r is Some <==> now + SESSION_SECONDS <= u64::MAX,
        r matches Some(reply) ==> signs_in_at(opt_view(client_url), user, secret@, now, reply),
{
    if now > u64::MAX - SESSION_SECONDS {
        return None;
    }
    let token = encode_token(user.email.clone(), SESSION_SECONDS, secret, now);
    let reply = login_reply(client_url, user, token);
    Some(reply)
}

/// The answer to a guest who just signed in, by the system clock; `None`
/// when the clock is set before the Unix epoch or the expiry overflows.
pub fn sign_in_reply(client_url: Option<String>, user: User, secret: &[u8]) -> (r: Option<LoginReply>)
    ensures
        r matches Some(reply) ==> exists|now: u64| signs_in_at(opt_view(client_url), user, secret@, now, reply),
{
    match unix_now() {
        Some(now) => sign_in_reply_at(client_url, user, secret, now),
        None => None,
    }
}

/// How a sign-in through a provider is answered once the guest's
/// registration has answered.
pub enum SignInAnswer {
    /// The guest is signed in with this reply.
    SignedIn(LoginReply),
    /// This status with an empty body.
    Empty(u16),
    /// A handler error with this status.
    Fail(u16),
}

/// The answer of the Google sign-in at the moment `now`: a registered guest
/// is signed in as `sign_in_reply_at` does, and a failed registration is
/// answered with an empty 500; `None` when the token's expiry overflows.
pub fn google_sign_in_answer(
    registered: Result<User, DbError>,
    client_url: Option<String>,
    secret: &[u8],
    now: u64,
) -> (r: Option<SignInAnswer>)
    ensures
        match registered {
            Ok(user) => {
                &&& r is Some <==> now + SESSION_SECONDS <= u64::MAX
                &&& r matches Some(a) ==> a matches SignInAnswer::SignedIn(reply) && signs_in_at(
                    opt_view(client_url),
                    user,
                    secret@,
                    now,
                    reply,
                )
            },
            Err(_) => r == Some(SignInAnswer::Empty(INTERNAL_SERVER_ERROR)),
        },
{
    match registered {
        Ok(user) => match sign_in_reply_at(client_url, user, secret, now) {
            Some(reply) => Some(SignInAnswer::SignedIn(reply)),
            None => None,
        },
        Err(_) => Some(SignInAnswer::Empty(INTERNAL_SERVER_ERROR)),
    }
}

/// The answer of the Facebook sign-in at the moment `now`: a registered
/// guest is signed in as `sign_in_reply_at` does, and a failed registration
/// is answered with a handler error of status 500; `None` when the token's
/// expiry overflows.
pub fn facebook_sign_in_answer(
    registered: Result<User, DbError>,
    client_url: Option<String>,
    secret: &[u8],
    now: u64,
) -> (r: Option<SignInAnswer>)
    ensures
        match registered {
            Ok(user) => {
                &&& r is Some <==> now + SESSION_SECONDS <= u64::MAX
                &&& r matches Some(a) ==> a matches SignInAnswer::SignedIn(reply) && signs_in_at(
                    opt_view(client_url),
                    user,
                    secret@,
                    now,
                    reply,
                )
            },
            Err(_) => r == Some(SignInAnswer::Fail(INTERNAL_SERVER_ERROR)),
        },
{
    match registered {
        Ok(user) => match sign_in_reply_at(client_url, user, secret, now) {
            Some(reply) => Some(SignInAnswer::SignedIn(reply)),
            None => None,
        },
        Err(_) => Some(SignInAnswer::Fail(INTERNAL_SERVER_ERROR)),
    }
}

} // verus!
