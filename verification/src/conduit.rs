//! The decisions of the database conversations. The queries themselves run
//! outside the library: each step below says what to ask next from the
//! answer to the previous question.
use vstd::prelude::*;
use crate::attend_status::AttendStatus;
use crate::auth::profile::Profile;
use crate::models::{ConfirmedUser, Id, NewConfirmedUser, NewUser, Token, User};

verus! {

/// How a query failed.
pub enum DbError {
    /// No row matched.
    NotFound,
    /// The database refused the statement; the text is its message.
    DatabaseError(String),
    /// Any other failure, described by its text.
    Other(String),
}

/// Registering a guest on first sign-in: look the e-mail address up, and
/// insert the guest only when that lookup fails.
pub struct FindOrCreate {
    pub new_user: NewUser,
}

/// What to do once the lookup by e-mail address has answered.
pub enum FindOrCreateStep {
    /// The guest exists; this is the answer.
    Found(User),
    /// Insert this guest; the insert's outcome is the answer.
    Insert(NewUser),
}

/// The step after the lookup by e-mail address: a found guest is the answer,
/// and any failed lookup leads to inserting `new_user`.
pub open spec fn step_after_lookup(new_user: NewUser, found: Result<User, DbError>) -> FindOrCreateStep {
    match found {
        Ok(u) => FindOrCreateStep::Found(u),
        Err(_) => FindOrCreateStep::Insert(new_user),
    }
}

/// What the lookup of `email` answers on a users table holding the guests by
/// e-mail address.
pub open spec fn lookup_answer(users: Map<Seq<char>, User>, email: Seq<char>) -> Result<User, DbError> {
    if users.contains_key(email) {
        Ok(users[email])
    } else {
        Err(DbError::NotFound)
    }
}

/// One registration of `new_user` on `users`: the table afterwards and the
/// guest it answers with, where `stored` is the row an insert returns.
pub open spec fn register_on(users: Map<Seq<char>, User>, new_user: NewUser, stored: User) -> (Map<Seq<char>, User>, User) {
    match step_after_lookup(new_user, lookup_answer(users, new_user.email@)) {
        FindOrCreateStep::Found(u) => (users, u),
        FindOrCreateStep::Insert(n) => (users.insert(n.email@, stored), stored),
    }
}

/// Registering is idempotent: a second registration under the same e-mail
/// address answers with the guest of the first and leaves the table as the
/// first left it.
pub proof fn lemma_register_idempotent(
    users: Map<Seq<char>, User>,
    first: NewUser,
    stored_first: User,
    second: NewUser,
    stored_second: User,
)
    requires
        second.email@ == first.email@,
    ensures
        register_on(register_on(users, first, stored_first).0, second, stored_second) == register_on(users, first, stored_first),
{
}

/// Starts registering the guest a profile describes.
pub fn find_or_create<T: Profile>(profile: &T) -> (r: FindOrCreate)
    ensures
        profile.registers(r.new_user),
{
    FindOrCreate { new_user: profile.new_user() }
}

impl FindOrCreate {
    /// Starts registering `new_user`.
    pub fn new(new_user: NewUser) -> (r: FindOrCreate)
        ensures
            r.new_user == new_user,
    {
        FindOrCreate { new_user }
    }

    /// The address to look the guest up by.
    pub fn lookup_email(&self) -> (r: String)
        ensures
            r@ == self.new_user.email@,
    {
        self.new_user.email.clone()
    }

    /// The next step after the lookup: a found guest is the answer, and any
    /// failed lookup leads to inserting the new guest.
    pub fn after_lookup(self, found: Result<User, DbError>) -> (r: FindOrCreateStep)
        ensures
            r == step_after_lookup(self.new_user, found),
    {
        match found {
            Ok(u) => FindOrCreateStep::Found(u),
            Err(_) => FindOrCreateStep::Insert(self.new_user),
        }
    }
}

/// An RSVP to record: whose it is, the answer, the table and the invitation
/// token it came with.
pub struct NewUserData {
    pub user_id: Id,
    pub will_attend: AttendStatus,
    pub table_id: Option<Id>,
    pub token: String,
}

/// Recording an RSVP: update the guest's stored answer; when there is none,
/// look the invitation token up and insert a new RSVP tied to it.
pub struct RsvpConfirmation {
    pub data: NewUserData,
}

/// What to do once the update has answered.
pub enum AfterUpdate {
    /// The stored RSVP was updated; this is the answer.
    Updated(ConfirmedUser),
    /// Look up the invitation token, then continue with `after_token`.
    LookUpToken(RsvpConfirmation, String),
}

/// The RSVP to insert for `data` once its token was found with id `token_id`.
pub open spec fn confirmation_row(data: NewUserData, token_id: Id) -> NewConfirmedUser {
    NewConfirmedUser {
        user_id: data.user_id,
        will_attend: data.will_attend,
        table_id: data.table_id,
        token_id,
    }
}

/// Starts recording an RSVP.
pub fn rsvp_confirmation(data: NewUserData) -> (r: RsvpConfirmation)
    ensures
        r.data == data,
{
    RsvpConfirmation { data }
}

/// What the update of `user_id`'s stored RSVP to `will_attend` answers on
/// the table of RSVPs by guest: the row with the new answer, or `NotFound`.
pub open spec fn update_answer(confirmed: Map<Id, ConfirmedUser>, user_id: Id, will_attend: AttendStatus) -> Result<ConfirmedUser, DbError> {
    if confirmed.contains_key(user_id) {
        let c = confirmed[user_id];
        Ok(ConfirmedUser {
            user_id: c.user_id,
            will_attend,
            table_id: c.table_id,
            token_id: c.token_id,
            created_at: c.created_at,
            updated_at: c.updated_at,
        })
    } else {
        Err(DbError::NotFound)
    }
}

/// What the lookup of the invitation token `token` answers on the tokens
/// table.
pub open spec fn token_answer(tokens: Map<Seq<char>, Token>, token: Seq<char>) -> Result<Token, DbError> {
    if tokens.contains_key(token) {
        Ok(tokens[token])
    } else {
        Err(DbError::NotFound)
    }
}

/// `c` is the row stored for the insert of `row`: the same fields, with the
/// database's timestamps.
pub open spec fn stored_as(row: NewConfirmedUser, c: ConfirmedUser) -> bool {
    &&& c.user_id == row.user_id
    &&& c.will_attend == row.will_attend
    &&& c.table_id == row.table_id
    &&& c.token_id == row.token_id
}

/// One recording of `data` on the tables: the RSVP table afterwards and the
/// answer, where `stored` is the row an insert returns.
pub open spec fn record_on(
    confirmed: Map<Id, ConfirmedUser>,
    tokens: Map<Seq<char>, Token>,
    data: NewUserData,
    stored: ConfirmedUser,
) -> (Map<Id, ConfirmedUser>, Result<ConfirmedUser, DbError>) {
    match update_answer(confirmed, data.user_id, data.will_attend) {
        Ok(c) => (confirmed.insert(data.user_id, c), Ok(c)),
        Err(_) => match token_answer(tokens, data.token@) {
            Ok(_) => (confirmed.insert(data.user_id, stored), Ok(stored)),
            Err(e) => (confirmed, Err(e)),
        },
    }
}

/// Recording an RSVP is idempotent: once it succeeded, recording the same
/// RSVP again answers with the same row and leaves the table as it was, one
/// row for the guest.
pub proof fn lemma_record_idempotent(
    confirmed: Map<Id, ConfirmedUser>,
    tokens: Map<Seq<char>, Token>,
    data: NewUserData,
    stored_first: ConfirmedUser,
    again: NewUserData,
    stored_again: ConfirmedUser,
)
    requires
        again.user_id == data.user_id,
        again.will_attend == data.will_attend,
        again.table_id == data.table_id,
        again.token@ == data.token@,
        tokens.contains_key(data.token@) ==> stored_as(
            confirmation_row(data, tokens[data.token@].id),
            stored_first,
        ),
        record_on(confirmed, tokens, data, stored_first).1 is Ok,
    ensures
        record_on(record_on(confirmed, tokens, data, stored_first).0, tokens, again, stored_again) == record_on(
            confirmed,
            tokens,
            data,
            stored_first,
        ),
{
    let t1 = record_on(confirmed, tokens, data, stored_first).0;
    assert(t1.contains_key(data.user_id));
    if confirmed.contains_key(data.user_id) {
        assert(t1.insert(data.user_id, t1[data.user_id]) =~= t1);
    } else {
        assert(t1.insert(data.user_id, stored_first) =~= t1);
    }
}

impl RsvpConfirmation {
    /// The first statement: set the answer of this guest's stored RSVP.
    pub fn update_target(&self) -> (r: (Id, AttendStatus))
        ensures
            r == (self.data.user_id, self.data.will_attend),
    {
        (self.data.user_id, self.data.will_attend)
    }

    /// The next step after the update: an updated RSVP is the answer, and any
    /// failed update leads to looking up the invitation token.
    pub fn after_update(self, updated: Result<ConfirmedUser, DbError>) -> (r: AfterUpdate)
        ensures
            match updated {
                Ok(c) => r == AfterUpdate::Updated(c),
                Err(_) => r matches AfterUpdate::LookUpToken(next, token) && next == self
                    && token@ == self.data.token@,
            },
    {
        match updated {
            Ok(c) => AfterUpdate::Updated(c),
            Err(_) => {
                let token = self.data.token.clone();
                AfterUpdate::LookUpToken(self, token)
            },
        }
    }

    /// The last decision: with the token found, the RSVP to insert; without
    /// it, the lookup's error is the answer.
    pub fn after_token(self, token: Result<Token, DbError>) -> (r: Result<NewConfirmedUser, DbError>)
        ensures
            match token {
                Ok(t) => r == Ok::<NewConfirmedUser, DbError>(confirmation_row(self.data, t.id)),
                Err(e) => r == Err::<NewConfirmedUser, DbError>(e),
            },
    {
        match token {
            Ok(t) => Ok(
                NewConfirmedUser {
                    user_id: self.data.user_id,
                    will_attend: self.data.will_attend,
                    table_id: self.data.table_id,
                    token_id: t.id,
                },
            ),
            Err(e) => Err(e),
        }
    }
}

} // verus!
