use julie_vic_wedding::conduit::DbError;
use julie_vic_wedding::models::{ConfirmedUser, Token, User};
use julie_vic_wedding::attend_status::AttendStatus;
use julie_vic_wedding::auth::token::encode_token;
use julie_vic_wedding::responses::{
    facebook_sign_in_answer, google_sign_in_answer, invite_token_reply, login_reply, me_reply, rsvp_reply,
    sign_in_reply, sign_in_reply_at, status_for_db_error, LoginReply, Reply, SignInAnswer, SESSION_SECONDS,
};

fn user() -> User {
    User {
        id: [7; 16],
        name: String::from("Julie"),
        last_name: Some(String::from("V")),
        email: String::from("julie@example.com"),
        created_at: 0,
        updated_at: 0,
    }
}

#[test]
fn db_error_statuses() {
    assert_eq!(status_for_db_error(&DbError::DatabaseError(String::from("x"))), 500);
    assert_eq!(status_for_db_error(&DbError::NotFound), 401);
    assert_eq!(status_for_db_error(&DbError::Other(String::from("y"))), 400);
}

#[test]
fn me_replies() {
    assert!(matches!(me_reply(Ok(user())), Reply::Json(r) if r.user.email == "julie@example.com"));
    assert!(matches!(me_reply(Err(DbError::NotFound)), Reply::Empty(401)));
    assert!(matches!(me_reply(Err(DbError::DatabaseError(String::new()))), Reply::Fail(500)));
    assert!(matches!(me_reply(Err(DbError::Other(String::new()))), Reply::Fail(500)));
}

#[test]
fn invite_token_replies() {
    let t = Token { id: [1; 16], token: String::from("AAAAA"), created_at: 0, updated_at: 0 };
    assert!(matches!(invite_token_reply(Ok(t)), Reply::Empty(200)));
    assert!(matches!(invite_token_reply(Err(DbError::NotFound)), Reply::Fail(401)));
    assert!(matches!(invite_token_reply(Err(DbError::DatabaseError(String::new()))), Reply::Fail(500)));
    assert!(matches!(invite_token_reply(Err(DbError::Other(String::new()))), Reply::Fail(400)));
}

#[test]
fn rsvp_replies() {
    let c = ConfirmedUser {
        user_id: [1; 16],
        will_attend: AttendStatus::Yes,
        table_id: None,
        token_id: [2; 16],
        created_at: 0,
        updated_at: 0,
    };
    assert!(matches!(rsvp_reply(Ok(c)), Reply::Json(r) if r.confirmed_user.will_attend == AttendStatus::Yes));
    assert!(matches!(rsvp_reply(Err(DbError::NotFound)), Reply::Fail(401)));
    assert!(matches!(rsvp_reply(Err(DbError::Other(String::new()))), Reply::Fail(400)));
}

#[test]
fn login_redirects_with_token() {
    match login_reply(Some(String::from("https://boda.example.com/")), user(), String::from("t.o.k")) {
        LoginReply::Redirect(to) => assert_eq!(to, "https://boda.example.com/?token=t.o.k"),
        LoginReply::Json(..) => panic!("expected redirect"),
    }
}

#[test]
fn login_without_client_returns_json() {
    match login_reply(None, user(), String::from("t.o.k")) {
        LoginReply::Json(a) => {
            assert_eq!(a.user.id, [7; 16]);
            assert_eq!(a.token, "t.o.k");
        }
        LoginReply::Redirect(_) => panic!("expected json"),
    }
}

#[test]
fn sign_in_issues_hour_long_token() {
    let now = std::time::SystemTime::now().duration_since(std::time::UNIX_EPOCH).unwrap().as_secs();
    let token = match sign_in_reply(None, user(), b"secret").unwrap() {
        LoginReply::Json(a) => {
            assert_eq!(a.user.email, "julie@example.com");
            a.token
        }
        LoginReply::Redirect(_) => panic!("expected json"),
    };
    let data = jsonwebtoken::decode::<serde_json::Value>(
        &token,
        &jsonwebtoken::DecodingKey::from_secret(b"secret"),
        &jsonwebtoken::Validation::default(),
    )
    .unwrap();
    assert_eq!(data.claims["email"], "julie@example.com");
    let exp = data.claims["exp"].as_u64().unwrap();
    assert!(exp >= now + SESSION_SECONDS && exp <= now + SESSION_SECONDS + 60);
}

fn token_at(now: u64) -> String {
    encode_token(String::from("julie@example.com"), SESSION_SECONDS, b"secret", now)
}

#[test]
fn sign_in_at_a_moment_expires_an_hour_later() {
    match sign_in_reply_at(None, user(), b"secret", 1_000).unwrap() {
        LoginReply::Json(a) => {
            assert_eq!(a.user.id, [7; 16]);
            assert_eq!(a.token, token_at(1_000));
            assert_ne!(a.token, encode_token(String::from("julie@example.com"), 7200, b"secret", 1_000));
        }
        LoginReply::Redirect(_) => panic!("expected json"),
    }
    match sign_in_reply_at(Some(String::from("https://x.example/")), user(), b"secret", 1_000).unwrap() {
        LoginReply::Redirect(to) => assert_eq!(to, format!("https://x.example/?token={}", token_at(1_000))),
        LoginReply::Json(_) => panic!("expected redirect"),
    }
    assert!(sign_in_reply_at(None, user(), b"secret", u64::MAX - SESSION_SECONDS).is_some());
    assert!(sign_in_reply_at(None, user(), b"secret", u64::MAX - SESSION_SECONDS + 1).is_none());
}

#[test]
fn failed_registration_answers_per_provider() {
    assert!(matches!(
        google_sign_in_answer(Err(DbError::NotFound), None, b"secret", 1_000),
        Some(SignInAnswer::Empty(500))
    ));
    assert!(matches!(
        facebook_sign_in_answer(Err(DbError::DatabaseError(String::from("down"))), None, b"secret", 1_000),
        Some(SignInAnswer::Fail(500))
    ));
    match google_sign_in_answer(Ok(user()), None, b"secret", 1_000) {
        Some(SignInAnswer::SignedIn(LoginReply::Json(a))) => assert_eq!(a.token, token_at(1_000)),
        _ => panic!("expected a signed-in guest"),
    }
    match facebook_sign_in_answer(Ok(user()), Some(String::from("https://c.example")), b"secret", 1_000) {
        Some(SignInAnswer::SignedIn(LoginReply::Redirect(to))) => {
            assert_eq!(to, format!("https://c.example?token={}", token_at(1_000)))
        }
        _ => panic!("expected a redirect"),
    }
    assert!(google_sign_in_answer(Ok(user()), None, b"secret", u64::MAX).is_none());
}
