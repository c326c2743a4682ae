//! Verified core of the Julie & Vic wedding RSVP service.
//!
//! Guests sign in with Google or Facebook, receive a session token, and
//! answer the invitation before a deadline; administrators print invitation
//! tokens and send invitation e-mails. The HTTP server, the database and the
//! providers are driven from outside the library; this crate holds the
//! values, encodings and decisions, each with its contract.
use vstd::prelude::*;

pub mod attend_status;
pub mod auth;
pub mod conduit;
pub mod invite;
pub mod language;
pub mod mail;
pub mod models;
pub mod responses;
pub mod rsvp_window;
pub mod text;
