//! The session token: its claims, their expiry and their signed JWT form.
use vstd::prelude::*;

verus! {

/// `std::time::SystemTime`, a reading of the system clock.
#[verifier::external_type_specification]
#[verifier::external_body]
pub struct ExSystemTime(std::time::SystemTime);

/// Reads the system clock with `SystemTime::now`. The time read is not
/// stated.
#[verifier::external_body]
fn system_now() -> (r: std::time::SystemTime) {
    std::time::SystemTime::now()
}

/// The whole seconds from the Unix epoch to `t`, from
/// `t.duration_since(UNIX_EPOCH)`; `None` when `t` is before the epoch. What
/// it returns for a given reading is not stated.
#[verifier::external_body]
fn seconds_since_epoch(t: &std::time::SystemTime) -> (r: Option<u64>) {
    t.duration_since(std::time::UNIX_EPOCH).ok().map(|d| d.as_secs())
}

/// The system clock in whole seconds since the Unix epoch; `None` when the
/// clock is set before the epoch.
pub(crate) fn unix_now() -> (r: Option<u64>) {
    let t = system_now();
    seconds_since_epoch(&t)
}

/// The JWT that `jsonwebtoken::encode` produces with the default header
/// (HS256) and the HMAC secret `secret` for the claims
/// `{"email": email, "exp": exp}` as serde_json serialises them.
pub uninterp spec fn jwt_hs256(email: Seq<char>, exp: u64, secret: Seq<u8>) -> Option<Seq<char>>;

/// Signs the claims with `jsonwebtoken::encode`, `Header::default()` and
/// `EncodingKey::from_secret(secret)`; the claims are handed over as a
/// `serde_json::Map` with the fields `email` and `exp`, as a serde derive on
/// `AuthUser` would write them. `encode` refuses only a key of another
/// algorithm family than the header's, claims that do not serialise, and
/// RSA or ECDSA keys that do not sign; none of these can happen here, so the
/// token is always produced. The contract names it.
#[verifier::external_body]
fn jwt_encode(claims: &AuthUser, secret: &[u8]) -> (r: String)
    ensures
        jwt_hs256(claims.email_view(), claims.exp_spec(), secret@) == Some(r@),
{
    let mut map = serde_json::Map::new();
    map.insert(String::from("email"), serde_json::Value::from(claims.email.as_str()));
    map.insert(String::from("exp"), serde_json::Value::from(claims.exp));
    let key = jsonwebtoken::EncodingKey::from_secret(secret);
    jsonwebtoken::encode(&jsonwebtoken::Header::default(), &map, &key).expect("HMAC signing does not fail")
}

/// The expiry `secs` seconds after the moment `now`; `None` when it does not
/// fit in 64 bits.
pub open spec fn expiry_after_spec(now: u64, secs: u64) -> Option<u64> {
    if now + secs <= u64::MAX {
        Some((now + secs) as u64)
    } else {
        None
    }
}

/// The moment `secs` seconds after `now`, both in seconds since the epoch.
pub fn expiry_after(now: u64, secs: u64) -> (r: Option<u64>)
    ensures
        r == expiry_after_spec(now, secs),
{
    now.checked_add(secs)
}

/// The moment `secs` seconds from now, in seconds since the Unix epoch;
/// `None` when the clock is before the epoch or the sum overflows.
pub fn seconds_from_now(secs: u64) -> (r: Option<u64>)
    ensures
        r matches Some(v) ==> v >= secs,
        r matches Some(v) ==> exists|now: u64| expiry_after_spec(now, secs) == Some(v),
{
    match unix_now() {
        Some(now) => expiry_after(now, secs),
        None => None,
    }
}

/// The claims of a session token: whose it is and when it expires.
pub struct AuthUser {
    email: String,
    exp: u64,
}

impl AuthUser {
    pub closed spec fn email_view(&self) -> Seq<char> {
        self.email@
    }

    pub closed spec fn exp_spec(&self) -> u64 {
        self.exp
    }

    /// Claims for `email` that expire at `exp`.
    pub fn from_parts(email: String, exp: u64) -> (r: AuthUser)
        ensures
            r.email_view() == email@,
            r.exp_spec() == exp,
    {
        AuthUser { email, exp }
    }

    /// Claims for `email` that expire `expire_in` seconds after the moment
    /// `now`, in seconds since the Unix epoch.
    pub fn new(email: String, expire_in: u64, now: u64) -> (r: AuthUser)
        requires
            now + expire_in <= u64::MAX,
        ensures
            r.email_view() == email@,
            r.exp_spec() == now + expire_in,
    {
        AuthUser { email, exp: now + expire_in }
    }

    /// The e-mail address the token belongs to.
    pub fn email(&self) -> (r: String)
        ensures
            r@ == self.email_view(),
    {
        self.email.clone()
    }

    /// When the token expires, in seconds since the epoch.
    pub fn exp(&self) -> (r: u64)
        ensures
            r == self.exp_spec(),
    {
        self.exp
    }
}

/// The signed JWT for the claims.
pub fn encode_claims(claims: &AuthUser, secret: &[u8]) -> (r: String)
    ensures
        jwt_hs256(claims.email_view(), claims.exp_spec(), secret@) == Some(r@),
{
    jwt_encode(claims, secret)
}

/// A session token for `email` that expires `expire_in` seconds after the
/// moment `now`, signed with `secret`.
pub fn encode_token(email: String, expire_in: u64, secret: &[u8], now: u64) -> (r: String)
    requires
        now + expire_in <= u64::MAX,
    ensures
        jwt_hs256(email@, (now + expire_in) as u64, secret@) == Some(r@),
{
    let claims = AuthUser::new(email, expire_in, now);
    encode_claims(&claims, secret)
}

} // verus!
