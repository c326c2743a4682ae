use julie_vic_wedding::auth::error::{AuthError, UrlParseError, WithCode};
use julie_vic_wedding::auth::oauth::{
    bearer_header, build_facebook_client, build_google_client, facebook_profile_url, google_userinfo_url,
    gen_authorize_url, try_build_facebook_client, try_build_google_client,
};
use julie_vic_wedding::auth::profile::{
    Code, FacebookProfile, FacebookRedirectExtractor, GoogleProfile, GoogleRedirectExtractor, Profile,
};
use julie_vic_wedding::auth::token::{encode_claims, encode_token, expiry_after, seconds_from_now, AuthUser};
use julie_vic_wedding::models::NewUser;

fn is_v4(id: &[u8; 16]) -> bool {
    id[6] >> 4 == 4 && id[8] >> 6 == 2
}

fn google(given: Option<&str>, family: Option<&str>) -> GoogleProfile {
    GoogleProfile {
        id: String::from("1"),
        email: String::from("vic@example.com"),
        family_name: family.map(String::from),
        gender: None,
        given_name: given.map(String::from),
        locale: Some(String::from("es")),
        picture: None,
        verified_email: true,
    }
}

#[test]
fn new_user_has_random_v4_id() {
    let a = NewUser::new(String::from("Julie"), None, String::from("julie@example.com"));
    let b = NewUser::new(String::from("Julie"), None, String::from("julie@example.com"));
    assert!(is_v4(&a.id));
    assert!(is_v4(&b.id));
    assert_ne!(a.id, b.id);
    assert_eq!(a.name, "Julie");
    assert_eq!(a.email, "julie@example.com");
    assert_eq!(a.last_name, None);
}

#[test]
fn google_profile_registers_given_and_family_name() {
    let u = google(Some("Victor"), Some("Garcia")).new_user();
    assert_eq!(u.name, "Victor");
    assert_eq!(u.last_name.as_deref(), Some("Garcia"));
    assert_eq!(u.email, "vic@example.com");
    assert!(is_v4(&u.id));
}

#[test]
fn google_profile_without_given_name_registers_empty_name() {
    let u = google(None, None).new_user();
    assert_eq!(u.name, "");
    assert_eq!(u.last_name, None);
}

#[test]
fn facebook_profile_registers_first_and_last_name() {
    let p = FacebookProfile {
        id: String::from("7"),
        email: String::from("julie@example.com"),
        first_name: String::from("Julie"),
        middle_name: Some(String::from("Ann")),
        last_name: Some(String::from("Smith")),
        gender: None,
        picture: None,
    };
    let u = p.new_user();
    assert_eq!(u.name, "Julie");
    assert_eq!(u.last_name.as_deref(), Some("Smith"));
    assert_eq!(u.email, "julie@example.com");
}

#[test]
fn extractors_carry_code() {
    let f = FacebookRedirectExtractor { code: String::from("fb-code"), state: String::from("s") };
    assert_eq!(f.code(), "fb-code");
    let g = GoogleRedirectExtractor {
        state: String::from("s"),
        code: String::from("g-code"),
        scope: vec![String::from("email")],
        prompt: String::from("none"),
        authuser: 0,
    };
    assert_eq!(g.code(), "g-code");
}

#[test]
fn auth_errors_are_internal_server_errors() {
    let bad = try_build_google_client(String::new(), String::new(), "not a url").err().unwrap();
    let errors = vec![
        bad,
        AuthError::ExchangeTokenError(String::from("x")),
        AuthError::ReqwestError(String::from("y")),
        AuthError::Other(String::from("z")),
    ];
    for e in &errors {
        assert_eq!(e.code(), 500);
    }
    assert_eq!(errors[0].message(), "Malformed Redirect Url");
    assert_eq!(errors[1].message(), "Can't parse token `x`");
    assert_eq!(errors[2].message(), "Can't make HTTP Request `y`");
    assert_eq!(errors[3].message(), "Something went wrong `z`");
}

#[test]
fn parse_error_converts_to_bad_redirect() {
    let e: AuthError = AuthError::from(UrlParseError::RelativeUrlWithoutBase);
    assert!(matches!(e, AuthError::BadRedirectUrl(UrlParseError::RelativeUrlWithoutBase)));
}

#[test]
fn google_client_config() {
    let c = build_google_client(String::from("gid"), String::from("gsecret"), "http://localhost:7878");
    assert_eq!(c.client_id, "gid");
    assert_eq!(c.client_secret, "gsecret");
    assert_eq!(c.auth_url, "https://accounts.google.com/o/oauth2/v2/auth");
    assert_eq!(c.token_url, "https://www.googleapis.com/oauth2/v3/token");
    assert_eq!(
        c.scopes,
        vec![
            String::from("https://www.googleapis.com/auth/userinfo.email"),
            String::from("https://www.googleapis.com/auth/userinfo.profile"),
        ]
    );
    assert_eq!(c.redirect_url, "http://localhost:7878/google/redirect");
    let checked = try_build_google_client(String::from("gid"), String::from("gsecret"), "http://localhost:7878")
        .ok()
        .unwrap();
    assert_eq!(checked.redirect_url, c.redirect_url);
    assert_eq!(checked.scopes, c.scopes);
}

#[test]
fn facebook_client_config() {
    let c = build_facebook_client(String::from("fid"), String::from("fsecret"), "https://api.example.com");
    assert_eq!(c.auth_url, "https://www.facebook.com/v5.0/dialog/oauth");
    assert_eq!(c.token_url, "https://graph.facebook.com/v5.0/oauth/access_token");
    assert_eq!(c.scopes, vec![String::from("email")]);
    assert_eq!(c.redirect_url, "https://api.example.com/facebook/redirect");
    assert_eq!(c.client_id, "fid");
    assert_eq!(c.client_secret, "fsecret");
    let checked = try_build_facebook_client(String::from("fid"), String::from("fsecret"), "https://api.example.com")
        .ok()
        .unwrap();
    assert_eq!(checked.redirect_url, c.redirect_url);
    assert!(matches!(
        try_build_facebook_client(String::new(), String::new(), ""),
        Err(AuthError::BadRedirectUrl(UrlParseError::RelativeUrlWithoutBase))
    ));
}

#[test]
fn provider_addresses() {
    assert_eq!(
        facebook_profile_url("TOKEN"),
        "https://graph.facebook.com/me?fields=id,first_name,last_name,middle_name,gender,picture,email&access_token=TOKEN"
    );
    assert_eq!(google_userinfo_url(), "https://www.googleapis.com/oauth2/v1/userinfo?alt=json");
    assert_eq!(bearer_header("abc"), "Bearer abc");
}

#[test]
fn expiry_arithmetic() {
    assert_eq!(expiry_after(1000, 3600), Some(4600));
    assert_eq!(expiry_after(u64::MAX, 1), None);
    assert_eq!(expiry_after(u64::MAX - 5, 5), Some(u64::MAX));
}

#[test]
fn auth_user_expires_after_given_moment() {
    let now = std::time::SystemTime::now().duration_since(std::time::UNIX_EPOCH).unwrap().as_secs();
    let u = AuthUser::new(String::from("julie@example.com"), 3600, 1_700_000_000);
    assert_eq!(u.email(), "julie@example.com");
    assert_eq!(u.exp(), 1_700_003_600);
    assert_eq!(AuthUser::new(String::from("x"), 0, u64::MAX).exp(), u64::MAX);
    let later = seconds_from_now(10).unwrap();
    assert!(later >= now + 10 && later <= now + 10 + 60);
    assert_eq!(seconds_from_now(u64::MAX), None);
}

fn reference_token(email: &str, exp: u64, secret: &[u8]) -> String {
    let mut claims = serde_json::Map::new();
    claims.insert(String::from("email"), serde_json::Value::from(email));
    claims.insert(String::from("exp"), serde_json::Value::from(exp));
    jsonwebtoken::encode(
        &jsonwebtoken::Header::default(),
        &serde_json::Value::Object(claims),
        &jsonwebtoken::EncodingKey::from_secret(secret),
    )
    .unwrap()
}

#[test]
fn encoded_claims_match_jsonwebtoken() {
    let u = AuthUser::from_parts(String::from("guest@example.com"), 1700000000);
    let token = encode_claims(&u, b"secret");
    assert_eq!(token, reference_token("guest@example.com", 1700000000, b"secret"));
    assert_eq!(token.split('.').count(), 3);
    assert_ne!(token, encode_claims(&u, b"other"));
    let odd = AuthUser::from_parts(String::from("a\"b\\c\n\u{1}é@x.com"), 0);
    assert_eq!(encode_claims(&odd, b"k"), reference_token("a\"b\\c\n\u{1}é@x.com", 0, b"k"));
}

#[test]
fn encode_token_signs_claims_expiring_after_now() {
    let token = encode_token(String::from("guest@example.com"), 3600, b"secret", 1_700_000_000);
    assert_eq!(token, reference_token("guest@example.com", 1_700_003_600, b"secret"));
    let mut validation = jsonwebtoken::Validation::default();
    validation.validate_exp = false;
    let data = jsonwebtoken::decode::<serde_json::Value>(
        &token,
        &jsonwebtoken::DecodingKey::from_secret(b"secret"),
        &validation,
    )
    .unwrap();
    assert_eq!(data.claims["email"], "guest@example.com");
    assert_eq!(data.claims["exp"].as_u64(), Some(1_700_003_600));
}

#[test]
fn redirect_errors_carry_the_parse_error() {
    assert!(matches!(
        try_build_google_client(String::new(), String::new(), "http://[::1"),
        Err(AuthError::BadRedirectUrl(UrlParseError::InvalidIpv6Address))
    ));
    assert!(matches!(
        try_build_facebook_client(String::new(), String::new(), "http://example.com:99999"),
        Err(AuthError::BadRedirectUrl(UrlParseError::InvalidPort))
    ));
}

fn reference_authorize_url(state: &str) -> String {
    let client = oauth2::basic::BasicClient::new(
        oauth2::ClientId::new(String::from("gid")),
        None,
        oauth2::AuthUrl::new(String::from("https://accounts.google.com/o/oauth2/v2/auth")).unwrap(),
        None,
    )
    .set_redirect_uri(oauth2::RedirectUrl::new(String::from("http://localhost:7878/google/redirect")).unwrap());
    let csrf = oauth2::CsrfToken::new(state.to_string());
    let (url, _) = client
        .authorize_url(|| csrf)
        .add_scope(oauth2::Scope::new(String::from("https://www.googleapis.com/auth/userinfo.email")))
        .add_scope(oauth2::Scope::new(String::from("https://www.googleapis.com/auth/userinfo.profile")))
        .url();
    url.to_string()
}

#[test]
fn authorize_url_carries_client_scopes_and_state() {
    let c = build_google_client(String::from("gid"), String::from("gsecret"), "http://localhost:7878");
    let (url, state) = gen_authorize_url(&c).unwrap();
    assert!(!state.is_empty());
    assert_eq!(url, reference_authorize_url(&state));
    assert!(url.starts_with("https://accounts.google.com/o/oauth2/v2/auth?response_type=code&client_id=gid&state="));
    assert!(url.contains("redirect_uri=http%3A%2F%2Flocalhost%3A7878%2Fgoogle%2Fredirect"));
    let (_, other) = gen_authorize_url(&c).unwrap();
    assert_ne!(state, other);
    let mut bad = c;
    bad.auth_url = String::from("not a url");
    assert!(gen_authorize_url(&bad).is_none());
}
