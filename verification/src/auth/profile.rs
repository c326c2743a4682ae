//! The profiles the OAuth providers return, the query string they redirect
//! back with, and how a profile becomes a guest.
use vstd::prelude::*;
use crate::models::{NewUser, opt_view, clone_opt, is_random_uuid};

verus! {

/// Something that describes a guest who can be registered.
pub trait Profile {
    /// Whether `u` is a guest this profile registers.
    spec fn registers(&self, u: NewUser) -> bool;

    /// The guest this profile registers, with a fresh identifier.
    fn new_user(&self) -> (r: NewUser)
        ensures
            self.registers(r),
    ;
}

/// Something that carries an OAuth authorization code.
pub trait Code {
    /// The authorization code.
    fn code(&self) -> String;
}

/// The query string Facebook redirects back with.
pub struct FacebookRedirectExtractor {
    pub code: String,
    pub state: String,
}

/// The query string Google redirects back with.
pub struct GoogleRedirectExtractor {
    pub state: String,
    pub code: String,
    pub scope: Vec<String>,
    pub prompt: String,
    pub authuser: i32,
}

impl Code for FacebookRedirectExtractor {
    fn code(&self) -> (r: String)
        ensures
            r@ == self.code@,
    {
        self.code.clone()
    }
}

impl Code for GoogleRedirectExtractor {
    fn code(&self) -> (r: String)
        ensures
            r@ == self.code@,
    {
        self.code.clone()
    }
}

/// The size and address of a profile picture.
pub struct PictureData {
    pub height: i32,
    pub width: i32,
    pub is_silhouette: bool,
    pub url: String,
}

/// A Facebook profile picture.
pub struct ProfilePicture {
    pub data: PictureData,
}

/// The fields of the Facebook Graph `me` endpoint the service asks for.
pub struct FacebookProfile {
    pub id: String,
    pub email: String,
    pub first_name: String,
    pub middle_name: Option<String>,
    pub last_name: Option<String>,
    pub gender: Option<String>,
    pub picture: Option<ProfilePicture>,
}

/// The fields of Google's `userinfo` endpoint.
pub struct GoogleProfile {
    pub id: String,
    pub email: String,
    pub family_name: Option<String>,
    pub gender: Option<String>,
    pub given_name: Option<String>,
    pub locale: Option<String>,
    pub picture: Option<String>,
    pub verified_email: bool,
}

/// The name a Google profile registers: the given name, or empty.
pub open spec fn google_name(p: &GoogleProfile) -> Seq<char> {
    match p.given_name {
        Some(n) => n@,
        None => Seq::empty(),
    }
}

impl Profile for FacebookProfile {
    /// First name, last name and e-mail address are taken over as they are,
    /// under a fresh random identifier.
    open spec fn registers(&self, u: NewUser) -> bool {
        &&& u.name@ == self.first_name@
        &&& opt_view(u.last_name) == opt_view(self.last_name)
        &&& u.email@ == self.email@
        &&& is_random_uuid(u.id)
    }

    fn new_user(&self) -> (r: NewUser) {
        let first_name = self.first_name.clone();
        let last_name = clone_opt(&self.last_name);
        let email = self.email.clone();
        NewUser::new(first_name, last_name, email)
    }
}

impl Profile for GoogleProfile {
    /// The given name (empty when missing) becomes the name, the family name
    /// the last name, under a fresh random identifier.
    open spec fn registers(&self, u: NewUser) -> bool {
        &&& u.name@ == google_name(self)
        &&& opt_view(u.last_name) == opt_view(self.family_name)
        &&& u.email@ == self.email@
        &&& is_random_uuid(u.id)
    }

    fn new_user(&self) -> (r: NewUser) {
        let name = match &self.given_name {
            Some(n) => n.clone(),
            None => String::new(),
        };
        let family_name = clone_opt(&self.family_name);
        let email = self.email.clone();
        NewUser::new(name, family_name, email)
    }
}

/// A Facebook profile registers the guest under its own first name, last
/// name and e-mail address, whatever its middle name, gender or picture.
pub proof fn lemma_facebook_registers_own_names(p: FacebookProfile, u: NewUser)
    requires
        p.registers(u),
    ensures
        u.name@ == p.first_name@,
        opt_view(u.last_name) == opt_view(p.last_name),
        u.email@ == p.email@,
        is_random_uuid(u.id),
{
}

/// A Google profile registers the guest under its given name (empty when it
/// has none), its family name and its e-mail address.
pub proof fn lemma_google_registers_own_names(p: GoogleProfile, u: NewUser)
    requires
        p.registers(u),
    ensures
        p.given_name matches Some(n) ==> u.name@ == n@,
        p.given_name is None ==> u.name@ == Seq::<char>::empty(),
        opt_view(u.last_name) == opt_view(p.family_name),
        u.email@ == p.email@,
        is_random_uuid(u.id),
{
}

} // verus!
