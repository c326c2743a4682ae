//! The rows the service reads and writes. Identifiers are the sixteen bytes
//! of a UUID; timestamps are seconds since the Unix epoch.
use vstd::prelude::*;
use crate::attend_status::AttendStatus;

verus! {

/// A UUID as its sixteen bytes, most significant first.
pub type Id = [u8; 16];

/// `id` carries the version (4) and variant (RFC 4122) bits of a random UUID.
pub open spec fn is_random_uuid(id: Id) -> bool {
    id@[6] / 16 == 4 && id@[8] / 64 == 2
}

/// Draws a fresh random UUID with `uuid::Uuid::new_v4` and returns its bytes.
/// The bytes are random; the source of `new_v4` sets the version nibble of
/// byte 6 to 4 and the top two bits of byte 8 to `10`, and that is all the
/// contract claims.
#[verifier::external_body]
pub(crate) fn new_random_id() -> (r: Id)
    ensures
        is_random_uuid(r),
{
    *uuid::Uuid::new_v4().as_bytes()
}

/// A registered guest.
pub struct User {
    pub id: Id,
    pub name: String,
    pub last_name: Option<String>,
    pub email: String,
    pub created_at: i64,
    pub updated_at: i64,
}

/// A guest about to be registered.
pub struct NewUser {
    pub id: Id,
    pub name: String,
    pub last_name: Option<String>,
    pub email: String,
}

/// The view of an optional string.
pub open spec fn opt_view(s: Option<String>) -> Option<Seq<char>> {
    match s {
        Some(v) => Some(v@),
        None => None,
    }
}

/// A copy of an optional string.
pub fn clone_opt(s: &Option<String>) -> (r: Option<String>)
    ensures
        opt_view(r) == opt_view(*s),
{
    match s {
        Some(v) => Some(v.clone()),
        None => None,
    }
}

impl NewUser {
    /// A new guest with a fresh random identifier.
    pub fn new(name: String, last_name: Option<String>, email: String) -> (r: NewUser)
        ensures
            r.name@ == name@,
            opt_view(r.last_name) == opt_view(last_name),
            r.email@ == email@,
            is_random_uuid(r.id),
    {
        NewUser { id: new_random_id(), name, last_name, email }
    }
}

/// A table at the venue.
pub struct Table {
    pub id: Id,
    pub name: String,
    pub alias: Option<String>,
}

/// A table about to be stored.
pub struct NewTable<'a> {
    pub id: &'a Id,
    pub name: &'a str,
    pub alias: Option<&'a str>,
}

/// A guest's stored RSVP.
pub struct ConfirmedUser {
    pub user_id: Id,
    pub will_attend: AttendStatus,
    pub table_id: Option<Id>,
    pub token_id: Id,
    pub created_at: i64,
    pub updated_at: i64,
}

/// An RSVP about to be stored.
pub struct NewConfirmedUser {
    pub user_id: Id,
    pub will_attend: AttendStatus,
    pub table_id: Option<Id>,
    pub token_id: Id,
}

/// An invitation token.
pub struct Token {
    pub id: Id,
    pub token: String,
    pub created_at: i64,
    pub updated_at: i64,
}

/// An invitation token about to be stored.
pub struct NewToken {
    pub id: Id,
    pub token: String,
}

} // verus!
