//! The invitation e-mails sent through Mailgun to guests who said yes.
use vstd::prelude::*;
use vstd::string::*;
use crate::models::{Id, opt_view};
use crate::text::push_str;

verus! {

/// An e-mail ready to send.
pub struct Email {
    pub from: String,
    pub to: String,
    pub subject: String,
    pub html: String,
}

/// A recipient written as `Name <address>`.
pub open spec fn mailbox(name: Seq<char>, address: Seq<char>) -> Seq<char> {
    name + " <"@ + address + ">"@
}

impl Email {
    /// An e-mail from `from_email` to `to_name <to_email>`.
    pub fn new(from_email: String, to_email: String, to_name: String, subject: String, html: String) -> (r: Email)
        ensures
            r.from@ == from_email@,
            r.to@ == mailbox(to_name@, to_email@),
            r.subject@ == subject@,
            r.html@ == html@,
    {
        let mut to = to_name;
        push_str(&mut to, " <");
        push_str(&mut to, to_email.as_str());
        push_str(&mut to, ">");
        Email { from: from_email, to, subject, html }
    }
}

/// A guest to invite, as the attendance query returns them.
pub struct GuestContact {
    pub email: String,
    pub name: String,
    pub last_name: Option<String>,
    pub user_id: Id,
}

/// The full name the invitation is addressed to: the name, a space and the
/// last name, which may be empty.
pub open spec fn full_name_of(name: Seq<char>, last_name: Option<Seq<char>>) -> Seq<char> {
    name + " "@ + match last_name {
        Some(l) => l,
        None => Seq::empty(),
    }
}

/// The full name the invitation is addressed to.
pub fn full_name(name: &str, last_name: &Option<String>) -> (r: String)
    ensures
        r@ == full_name_of(name@, opt_view(*last_name)),
{
    let mut s = String::from_str(name);
    push_str(&mut s, " ");
    match last_name {
        Some(l) => push_str(&mut s, l.as_str()),
        None => {},
    }
    s
}

/// An invitation is addressed to the guest's whole name: the name, one space
/// and the whole last name (nothing after the space when there is none),
/// followed by the address in angle brackets.
pub proof fn lemma_addressed_by_full_name(name: Seq<char>, last_name: Option<Seq<char>>, address: Seq<char>)
    ensures
        last_name matches Some(l) ==> full_name_of(name, last_name) == name + " "@ + l,
        last_name is None ==> full_name_of(name, last_name) == name + " "@,
        mailbox(full_name_of(name, last_name), address) == full_name_of(name, last_name) + " <"@ + address
            + ">"@,
{
    if let Some(l) = last_name {
        assert(full_name_of(name, last_name) =~= name + " "@ + l);
    } else {
        assert(full_name_of(name, last_name) =~= name + " "@);
    }
}

/// The sender address on the site's domain.
pub open spec fn sender_of(domain: Seq<char>) -> Seq<char> {
    "boda@"@ + domain
}

/// The invitation for one guest: sent from `boda@<domain>` to the guest by
/// full name, with the subject "Invitación" and the template as its body.
pub fn rsvp_email(domain: &str, guest: &GuestContact, template: String) -> (r: Email)
    ensures
        r.from@ == sender_of(domain@),
        r.to@ == mailbox(full_name_of(guest.name@, opt_view(guest.last_name)), guest.email@),
        r.subject@ == "Invitaci\u{f3}n"@,
        r.html@ == template@,
{
    let name = full_name(guest.name.as_str(), &guest.last_name);
    let mut sender = String::from_str("boda@");
    push_str(&mut sender, domain);
    let subject = String::from_str("Invitaci\u{f3}n");
    Email::new(sender, guest.email.clone(), name, subject, template)
}

/// Mailgun's endpoint for sending messages from `domain`.
pub fn mailgun_messages_url(domain: &str) -> (r: String)
    ensures
        r@ == "https://api.eu.mailgun.net/v3/"@ + domain@ + "/messages"@,
{
    let mut s = String::from_str("https://api.eu.mailgun.net/v3/");
    push_str(&mut s, domain);
    push_str(&mut s, "/messages");
    s
}

/// The form fields posted to Mailgun for an e-mail: sender, recipient, the
/// subject "Invitation" and the HTML body.
pub fn mailgun_form(email: &Email) -> (r: Vec<(String, String)>)
    ensures
        r@.len() == 4,
        r@[0].0@ == "from"@ && r@[0].1@ == email.from@,
        r@[1].0@ == "to"@ && r@[1].1@ == email.to@,
        r@[2].0@ == "subject"@ && r@[2].1@ == "Invitation"@,
        r@[3].0@ == "html"@ && r@[3].1@ == email.html@,
{
    let mut form: Vec<(String, String)> = Vec::new();
    form.push((String::from_str("from"), email.from.clone()));
    form.push((String::from_str("to"), email.to.clone()));
    form.push((String::from_str("subject"), String::from_str("Invitation")));
    form.push((String::from_str("html"), email.html.clone()));
    form
}

} // verus!
